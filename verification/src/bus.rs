//! Values as they arrive from the bus.
//!
//! An item answers with a number of some type, a flag, a text, or one of these wrapped
//! once more; every other answer, the empty array among them, is no value. Flags and
//! whole numbers are then read off a plain number.

use crate::num::Num;
use vstd::prelude::*;

verus! {

/// A value of the bus.
#[derive(Debug)]
pub enum BusValue {
    Double(Num),
    Int(i64),
    Uint(u64),
    Bool(bool),
    Text(String),
    Nested(Box<BusValue>),
    /// Anything else.
    Other,
}

impl BusValue {
    /// The number that the value holds, unwrapped.
    pub open spec fn as_number(self) -> Option<Num>
        decreases self,
    {
        match self {
            BusValue::Double(x) => Some(x),
            BusValue::Int(x) => Some(crate::num::whole(x as int)),
            BusValue::Uint(x) => Some(crate::num::whole(x as int)),
            BusValue::Bool(b) => Some(
                crate::num::whole(
                    if b {
                        1
                    } else {
                        0
                    },
                ),
            ),
            BusValue::Nested(inner) => inner.as_number(),
            _ => None,
        }
    }

    /// The number in the value; a flag is 0 or 1.
    pub fn number(&self) -> (r: Option<Num>)
        ensures
            r == self.as_number(),
        decreases self,
    {
        match self {
            BusValue::Double(x) => Some(*x),
            BusValue::Int(x) => Some(Num::of(*x)),
            BusValue::Uint(x) => if *x <= i64::MAX as u64 {
                Some(Num::of(*x as i64))
            } else {
                Some(Num::Fin(i64::MAX))
            },
            BusValue::Bool(b) => Some(
                Num::of(
                    if *b {
                        1
                    } else {
                        0
                    },
                ),
            ),
            BusValue::Nested(inner) => inner.number(),
            _ => None,
        }
    }

    /// The text that the value holds, unwrapped.
    pub open spec fn as_text(self) -> Option<Seq<char>>
        decreases self,
    {
        match self {
            BusValue::Text(s) => Some(s@),
            BusValue::Nested(inner) => inner.as_text(),
            _ => None,
        }
    }

    /// The text in the value.
    pub fn text(&self) -> (r: Option<String>)
        ensures
            crate::text::text(r) == self.as_text(),
        decreases self,
    {
        match self {
            BusValue::Text(s) => Some(s.clone()),
            BusValue::Nested(inner) => inner.text(),
            _ => None,
        }
    }
}

/// The flag that a number stands for: any finite number other than 0.
pub fn as_bool(v: Num) -> (r: bool)
    ensures
        r == (v.is_finite() && v != Num::Fin(0)),
{
    v.is_finite() && v != Num::Fin(0)
}

/// The whole part of a number, towards zero; "not a number" is 0.
pub open spec fn whole_part(v: Num) -> int {
    match v {
        Num::Nan => 0,
        Num::NegInf => i64::MIN as int,
        Num::PosInf => i64::MAX as int,
        Num::Fin(x) => if x >= 0 {
            x as int / 1_000_000
        } else {
            -((-x) / 1_000_000)
        },
    }
}

/// The whole part of a number, towards zero; an infinity is the bound of the type.
pub fn as_i64(v: Num) -> (r: i64)
    ensures
        r == whole_part(v),
{
    match v {
        Num::Nan => 0,
        Num::NegInf => i64::MIN,
        Num::PosInf => i64::MAX,
        Num::Fin(x) => if x >= 0 {
            x / 1_000_000
        } else {
            let q: i128 = (-(x as i128)) / 1_000_000;
            (-q) as i64
        },
    }
}

/// The whole part, held within the range of the type.
pub fn as_i32(v: Num) -> (r: i32)
    ensures
        r == (if whole_part(v) < i32::MIN {
            i32::MIN as int
        } else if whole_part(v) > i32::MAX {
            i32::MAX as int
        } else {
            whole_part(v)
        }),
{
    let x: i64 = as_i64(v);
    if x < i32::MIN as i64 {
        i32::MIN
    } else if x > i32::MAX as i64 {
        i32::MAX
    } else {
        x as i32
    }
}

/// The whole part, held within the range of the type.
pub fn as_u32(v: Num) -> (r: u32)
    ensures
        r == (if whole_part(v) < 0 {
            0
        } else if whole_part(v) > u32::MAX {
            u32::MAX as int
        } else {
            whole_part(v)
        }),
{
    let x: i64 = as_i64(v);
    if x < 0 {
        0
    } else if x > u32::MAX as i64 {
        u32::MAX
    } else {
        x as u32
    }
}

/// However often a value is wrapped, it holds the same number and the same text.
pub proof fn wrapping_changes_nothing(v: BusValue)
    ensures
        BusValue::Nested(Box::new(v)).as_number() == v.as_number(),
        BusValue::Nested(Box::new(v)).as_text() == v.as_text(),
{
}

/// A number arrives as it is: a whole number as that many units, a flag as 1 or 0.
pub proof fn numbers_arrive_as_they_are(x: i64, v: Num)
    requires
        -9_000_000_000_000 <= x <= 9_000_000_000_000,
    ensures
        BusValue::Double(v).as_number() == Some(v),
        BusValue::Int(x).as_number() == Some(Num::Fin((x * 1_000_000) as i64)),
        x >= 0 ==> BusValue::Uint(x as u64).as_number() == Some(Num::Fin((x * 1_000_000) as i64)),
        BusValue::Bool(true).as_number() == Some(Num::Fin(1_000_000)),
        BusValue::Bool(false).as_number() == Some(Num::Fin(0)),
        BusValue::Other.as_number() is None,
        BusValue::Other.as_text() is None,
        BusValue::Double(v).as_text() is None,
{
}

/// The whole part is the number without its fraction: never further from zero than the
/// number, by less than one, and of its sign.
pub proof fn whole_part_drops_the_fraction(v: i64)
    ensures
        v >= 0 ==> 0 <= v - 1_000_000 * whole_part(Num::Fin(v)) < 1_000_000,
        v <= 0 ==> 0 <= 1_000_000 * whole_part(Num::Fin(v)) - v < 1_000_000,
        whole_part(Num::Nan) == 0,
        whole_part(Num::PosInf) == i64::MAX,
        whole_part(Num::NegInf) == i64::MIN,
{
}

} // verus!
