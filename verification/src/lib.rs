//! Strongly-typed ATPCO reference-data codes: a variable-length fare type
//! code stored inline in a fixed-size buffer, and a closed passenger type
//! enumeration with exhaustive code/description lookup.

pub mod fare_code;
pub mod passenger_kind;
