//! Interned identifiers the compiler knows before any source is read. Each constant is the index
//! of its word in the interner's table.
use vstd::prelude::*;

verus! {

pub const INTERNED_I8: u32 = 0;
pub const INTERNED_U8: u32 = 1;
pub const INTERNED_I16: u32 = 2;
pub const INTERNED_U16: u32 = 3;
pub const INTERNED_F16: u32 = 4;
pub const INTERNED_I32: u32 = 5;
pub const INTERNED_U32: u32 = 6;
pub const INTERNED_F32: u32 = 7;
pub const INTERNED_I64: u32 = 8;
pub const INTERNED_U64: u32 = 9;
pub const INTERNED_F64: u32 = 10;
pub const INTERNED_I128: u32 = 11;
pub const INTERNED_U128: u32 = 12;
pub const INTERNED_F128: u32 = 13;
pub const INTERNED_SIZED: u32 = 14;
pub const INTERNED_UNSIZED: u32 = 15;
pub const INTERNED_STR: u32 = 16;
pub const INTERNED_CHAR: u32 = 17;
pub const INTERNED_NIL: u32 = 18;
pub const INTERNED_BOOL: u32 = 19;
pub const INTERNED_BIGINT: u32 = 20;
pub const INTERNED_BIGFLOAT: u32 = 21;
pub const INTERNED_RUNTIME: u32 = 22;
pub const INTERNED_UNKNOWN: u32 = 23;
pub const INTERNED_CORE: u32 = 24;
pub const INTERNED_RANGED: u32 = 25;
pub const INTERNED_CHARACTER_MAPPABLE: u32 = 26;
pub const INTERNED_COLLECTION: u32 = 27;
pub const INTERNED_HAS_LEN: u32 = 28;
pub const INTERNED_INTEGER: u32 = 29;
pub const INTERNED_NUMERIC: u32 = 30;
pub const INTERNED_SIGNED_INTEGER: u32 = 31;
pub const INTERNED_UNSIGNED_INTEGER: u32 = 32;
pub const INTERNED_FLOAT: u32 = 33;
pub const INTERNED_ORDERED: u32 = 34;
pub const INTERNED_COMPARABLE: u32 = 35;
pub const INTERNED_IS_EMPTY: u32 = 36;
pub const INTERNED_IS_WHITESPACE: u32 = 37;
pub const INTERNED_CONTAINS: u32 = 38;
pub const INTERNED_STARTSW: u32 = 39;
pub const INTERNED_ENDSW: u32 = 40;
pub const INTERNED_RANGE: u32 = 41;
pub const INTERNED_EQUALS: u32 = 42;
pub const INTERNED_WARN: u32 = 43;
pub const INTERNED_IGNORE: u32 = 44;
pub const INTERNED_SCIENT: u32 = 45;
pub const INTERNED_HEX: u32 = 46;
pub const INTERNED_BIN: u32 = 47;
pub const INTERNED_OCTAL: u32 = 48;
pub const INTERNED_UNICODE: u32 = 49;
pub const INTERNED_MAX_UPPER: u32 = 50;
pub const INTERNED_MIN_UPPER: u32 = 51;
pub const INTERNED_BITS_UPPER: u32 = 52;
pub const INTERNED_BYTES_UPPER: u32 = 53;
pub const INTERNED_RADIX: u32 = 54;
pub const INTERNED_DIGITS: u32 = 55;
pub const INTERNED_MANTISSA_DIGITS: u32 = 56;
pub const INTERNED_EPSILON: u32 = 57;
pub const INTERNED_INFINITY: u32 = 58;
pub const INTERNED_NEG_INFINITY: u32 = 59;
pub const INTERNED_NAN: u32 = 60;
pub const INTERNED_MIN_POSITIVE: u32 = 61;
pub const INTERNED_PI_UPPER: u32 = 62;
pub const INTERNED_E_UPPER: u32 = 63;
pub const INTERNED_TAU: u32 = 64;
pub const INTERNED_FRAC_1_PI: u32 = 65;
pub const INTERNED_FRAC_1_SQRT_2: u32 = 66;
pub const INTERNED_FRAC_2_PI: u32 = 67;
pub const INTERNED_FRAC_2_SQRT_PI: u32 = 68;
pub const INTERNED_FRAC_PI_2: u32 = 69;
pub const INTERNED_FRAC_PI_3: u32 = 70;
pub const INTERNED_FRAC_PI_4: u32 = 71;
pub const INTERNED_FRAC_PI_6: u32 = 72;
pub const INTERNED_FRAC_PI_8: u32 = 73;
pub const INTERNED_LN_2: u32 = 74;
pub const INTERNED_LN_10: u32 = 75;
pub const INTERNED_LOG2_10: u32 = 76;
pub const INTERNED_LOG2_E: u32 = 77;
pub const INTERNED_LOG10_2: u32 = 78;
pub const INTERNED_LOG10_E: u32 = 79;
pub const INTERNED_SQRT_2: u32 = 80;
pub const INTERNED_SQRT_3: u32 = 81;
pub const INTERNED_GOLDEN_RATIO: u32 = 82;
pub const INTERNED_EULER_GAMMA: u32 = 83;
pub const INTERNED_RUST_UPPER: u32 = 84;
pub const INTERNED_JAVA_UPPER: u32 = 85;
pub const INTERNED_TYPES_LOWER: u32 = 86;
pub const INTERNED_RUST_LOWER: u32 = 87;
pub const INTERNED_JAVA_LOWER: u32 = 88;
pub const INTERNED_USIZE: u32 = 89;
pub const INTERNED_ISIZE: u32 = 90;
pub const INTERNED_STRING: u32 = 91;
pub const INTERNED_LONG: u32 = 92;
pub const INTERNED_INT: u32 = 93;
pub const INTERNED_SHORT: u32 = 94;
pub const INTERNED_BYTE: u32 = 95;
pub const INTERNED_FLOAT_LOWER: u32 = 96;
pub const INTERNED_DOUBLE: u32 = 97;
pub const INTERNED_BOOLEAN: u32 = 98;

/// Number of identifiers the interner holds before any source is read. User identifiers are
/// interned from this index on.
pub const INTERNED_PRESET_COUNT: u32 = 99;

} // verus!
