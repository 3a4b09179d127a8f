//! Typed access to the property values a tile map's entries carry.
//!
//! A property is one of a small set of typed values; each accessor returns
//! the value only when the property has exactly that type, and each `_or`
//! variant falls back to a caller-supplied default.  Float-valued
//! properties have no representation here: the simulation is integer-only.

use vstd::prelude::*;

verus! {

/// An RGBA color property.
#[derive(Debug, Clone, Copy, PartialEq, Eq, Structural)]
pub struct Color {
    pub alpha: u8,
    pub red: u8,
    pub green: u8,
    pub blue: u8,
}

/// One typed property value of a map, layer, tile or object.
#[derive(Debug)]
pub enum PropertyValue {
    BoolValue(bool),
    IntValue(i32),
    /// A reference to an object, by id.
    ObjectValue(u32),
    StringValue(String),
    FileValue(String),
    ColorValue(Color),
}

impl PropertyValue {
    pub fn as_bool(&self) -> (r: Option<bool>)
        ensures
            r == (match *self {
                PropertyValue::BoolValue(v) => Some(v),
                _ => None::<bool>,
            }),
    {
        match self {
            PropertyValue::BoolValue(v) => Some(*v),
            _ => None,
        }
    }

    pub fn as_i32(&self) -> (r: Option<i32>)
        ensures
            r == (match *self {
                PropertyValue::IntValue(v) => Some(v),
                _ => None::<i32>,
            }),
    {
        match self {
            PropertyValue::IntValue(v) => Some(*v),
            _ => None,
        }
    }

    pub fn as_u32(&self) -> (r: Option<u32>)
        ensures
            r == (match *self {
                PropertyValue::ObjectValue(v) => Some(v),
                _ => None::<u32>,
            }),
    {
        match self {
            PropertyValue::ObjectValue(v) => Some(*v),
            _ => None,
        }
    }

    /// The string of a string- or file-valued property.
    pub fn as_str(&self) -> (r: Option<&str>)
        ensures
            match *self {
                PropertyValue::StringValue(s) => r matches Some(v) && v@ == s@,
                PropertyValue::FileValue(s) => r matches Some(v) && v@ == s@,
                _ => r is None,
            },
    {
        match self {
            PropertyValue::StringValue(s) => Some(s.as_str()),
            PropertyValue::FileValue(s) => Some(s.as_str()),
            _ => None,
        }
    }

    pub fn as_color(&self) -> (r: Option<Color>)
        ensures
            r == (match *self {
                PropertyValue::ColorValue(c) => Some(c),
                _ => None::<Color>,
            }),
    {
        match self {
            PropertyValue::ColorValue(c) => Some(*c),
            _ => None,
        }
    }

    pub fn bool_or(&self, default: bool) -> (r: bool)
        ensures
            r == (match *self {
                PropertyValue::BoolValue(v) => v,
                _ => default,
            }),
    {
        match self.as_bool() {
            Some(v) => v,
            None => default,
        }
    }

    pub fn i32_or(&self, default: i32) -> (r: i32)
        ensures
            r == (match *self {
                PropertyValue::IntValue(v) => v,
                _ => default,
            }),
    {
        match self.as_i32() {
            Some(v) => v,
            None => default,
        }
    }

    pub fn u32_or(&self, default: u32) -> (r: u32)
        ensures
            r == (match *self {
                PropertyValue::ObjectValue(v) => v,
                _ => default,
            }),
    {
        match self.as_u32() {
            Some(v) => v,
            None => default,
        }
    }

    /// The string of a string- or file-valued property, or the default.
    pub fn str_or<'a>(&'a self, default: &'a str) -> (r: &'a str)
        ensures
            match *self {
                PropertyValue::StringValue(s) => r@ == s@,
                PropertyValue::FileValue(s) => r@ == s@,
                _ => r@ == default@,
            },
    {
        match self.as_str() {
            Some(v) => v,
            None => default,
        }
    }
}

} // verus!
