//! The strip's place on the screen.

use vstd::prelude::*;
use crate::number::parse_i32;
use crate::number::parse_u32;
use crate::number::spec_i32;
use crate::number::spec_u32;

verus! {

/// Where the strip stands and how large it is, in whole pixels, and the
/// monitor whose tags it shows. Only the width changes while the strip runs.
#[derive(Clone, Copy, Debug, PartialEq, Eq, Structural)]
pub struct DynamicConfig {
    pub x_offset: i32,
    pub y_offset: i32,
    pub width: u32,
    pub height: u32,
    pub monitor: i32,
}

/// Why a command line gives no geometry.
#[derive(Clone, Copy, Debug, PartialEq, Eq, Structural)]
pub enum ArgumentError {
    /// Not five arguments after the program's name; `given` counts the name.
    WrongCount { given: usize },
    /// The argument at `position` is no number that its field can hold.
    NotANumber { position: usize },
}

/// The texts of a list of strings.
pub open spec fn texts(strings: Seq<String>) -> Seq<Seq<char>> {
    strings.map_values(|s: String| s@)
}

/// The geometry that a command line gives: the program's name, then
/// `x_offset y_offset width height monitor`. The first argument that is no
/// number is the one reported.
pub open spec fn spec_from_args(args: Seq<Seq<char>>) -> Result<DynamicConfig, ArgumentError> {
    if args.len() != 6 {
        Err(ArgumentError::WrongCount { given: args.len() as usize })
    } else if spec_i32(args[1]) is None {
        Err(ArgumentError::NotANumber { position: 1 })
    } else if spec_i32(args[2]) is None {
        Err(ArgumentError::NotANumber { position: 2 })
    } else if spec_u32(args[3]) is None {
        Err(ArgumentError::NotANumber { position: 3 })
    } else if spec_u32(args[4]) is None {
        Err(ArgumentError::NotANumber { position: 4 })
    } else if spec_i32(args[5]) is None {
        Err(ArgumentError::NotANumber { position: 5 })
    } else {
        Ok(
            DynamicConfig {
                x_offset: spec_i32(args[1])->0,
                y_offset: spec_i32(args[2])->0,
                width: spec_u32(args[3])->0,
                height: spec_u32(args[4])->0,
                monitor: spec_i32(args[5])->0,
            },
        )
    }
}

impl Default for DynamicConfig {
    fn default() -> (config: DynamicConfig)
        ensures
            config == (DynamicConfig { x_offset: 0, y_offset: 0, width: 0, height: 0, monitor: 0 }),
    {
        DynamicConfig { x_offset: 0, y_offset: 0, width: 0, height: 0, monitor: 0 }
    }
}

impl DynamicConfig {
    /// Reads the geometry from a command line, the program's name included.
    pub fn from_args(args: &Vec<String>) -> (config: Result<DynamicConfig, ArgumentError>)
        ensures
            config == spec_from_args(texts(args@)),
    {
        if args.len() != 6 {
            return Err(ArgumentError::WrongCount { given: args.len() });
        }
        let x_offset = match parse_i32(args[1].as_str()) {
            Some(v) => v,
            None => { return Err(ArgumentError::NotANumber { position: 1 }); },
        };
        let y_offset = match parse_i32(args[2].as_str()) {
            Some(v) => v,
            None => { return Err(ArgumentError::NotANumber { position: 2 }); },
        };
        let width = match parse_u32(args[3].as_str()) {
            Some(v) => v,
            None => { return Err(ArgumentError::NotANumber { position: 3 }); },
        };
        let height = match parse_u32(args[4].as_str()) {
            Some(v) => v,
            None => { return Err(ArgumentError::NotANumber { position: 4 }); },
        };
        let monitor = match parse_i32(args[5].as_str()) {
            Some(v) => v,
            None => { return Err(ArgumentError::NotANumber { position: 5 }); },
        };
        Ok(DynamicConfig { x_offset, y_offset, width, height, monitor })
    }

    /// The same geometry with another width.
    pub fn with_width(self, width: u32) -> (config: DynamicConfig)
        ensures
            config == (DynamicConfig { width, ..self }),
    {
        DynamicConfig { width, ..self }
    }
}

} // verus!
