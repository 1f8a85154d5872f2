use vstd::prelude::*;

verus! {

/// `bit_struct::i7::new` and, on what it gives, `value`: a signed field of 7
/// bits holds exactly the values from -64 to 63, and hands back the value it
/// was made of.
#[verifier::external_body]
pub(crate) fn i7_new(value: i8) -> (field: Option<i8>)
    ensures
        field == (if -64 <= value <= 63 {
            Some(value)
        } else {
            None
        }),
{
    match bit_struct::i7::new(value) {
        Some(field) => Some(field.value()),
        None => None,
    }
}

/// `bit_struct::u4::new` and, on what it gives, `value`: a field of 4 bits
/// holds exactly the values up to 15, and hands back the value it was made of.
#[verifier::external_body]
pub(crate) fn u4_new(value: u8) -> (field: Option<u8>)
    ensures
        field == (if value <= 15 {
            Some(value)
        } else {
            None
        }),
{
    match bit_struct::u4::new(value) {
        Some(field) => Some(field.value()),
        None => None,
    }
}

/// `bit_struct::u5::new` and, on what it gives, `value`: a field of 5 bits
/// holds exactly the values up to 31, and hands back the value it was made of.
#[verifier::external_body]
pub(crate) fn u5_new(value: u8) -> (field: Option<u8>)
    ensures
        field == (if value <= 31 {
            Some(value)
        } else {
            None
        }),
{
    match bit_struct::u5::new(value) {
        Some(field) => Some(field.value()),
        None => None,
    }
}

/// `bit_struct::u6::new` and, on what it gives, `value`: a field of 6 bits
/// holds exactly the values up to 63, and hands back the value it was made of.
#[verifier::external_body]
pub(crate) fn u6_new(value: u8) -> (field: Option<u8>)
    ensures
        field == (if value <= 63 {
            Some(value)
        } else {
            None
        }),
{
    match bit_struct::u6::new(value) {
        Some(field) => Some(field.value()),
        None => None,
    }
}

/// `bit_struct::u10::new` and, on what it gives, `value`: a field of 10 bits
/// holds exactly the values up to 1023, and hands back the value it was made
/// of.
#[verifier::external_body]
pub(crate) fn u10_new(value: u16) -> (field: Option<u16>)
    ensures
        field == (if value <= 1023 {
            Some(value)
        } else {
            None
        }),
{
    match bit_struct::u10::new(value) {
        Some(field) => Some(field.value()),
        None => None,
    }
}

} // verus!
