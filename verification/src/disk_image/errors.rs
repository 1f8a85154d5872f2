use vstd::prelude::*;
use vstd::string::*;
use crate::text::{decimal, spec_decimal};

verus! {

/// What can go wrong when an image is converted.
#[derive(Debug, Clone, PartialEq)]
pub enum ConvertErrorType {
    SectorDivision,
    SectorNumber(usize, usize),
    DiskEncoding(String),
    RawImageCreation(String),
}

/// A fault of the conversion of an image.
#[derive(Debug, Clone, PartialEq)]
pub struct ConvertError {
    pub kind: ConvertErrorType,
}

/// The text of a fault of the conversion.
pub open spec fn spec_convert_message(kind: ConvertErrorType) -> Seq<char> {
    match kind {
        ConvertErrorType::SectorDivision => "Unable to divide input image into sectors"@,
        ConvertErrorType::SectorNumber(should_be, is) => {
            "Wrong number of sectors in input image (should be "@ + spec_decimal(should_be as nat)
                + ", is "@ + spec_decimal(is as nat) + ")"@
        },
        ConvertErrorType::DiskEncoding(msg) => "Disk encoding error: "@ + msg@,
        ConvertErrorType::RawImageCreation(msg) => "Raw image creation error: "@ + msg@,
    }
}

impl ConvertError {
    /// A fault of a kind.
    pub fn new(kind: ConvertErrorType) -> (error: Self)
        ensures
            error.kind == kind,
    {
        Self { kind }
    }

    /// The text of the fault.
    pub fn message(&self) -> (text: String)
        ensures
            text@ == spec_convert_message(self.kind),
    {
        match &self.kind {
            ConvertErrorType::SectorDivision => {
                String::from_str("Unable to divide input image into sectors")
            },
            ConvertErrorType::SectorNumber(should_be, is) => {
                let mut text = String::from_str(
                    "Wrong number of sectors in input image (should be ",
                );
                text.append(decimal(*should_be as u128).as_str());
                text.append(", is ");
                text.append(decimal(*is as u128).as_str());
                text.append(")");
                text
            },
            ConvertErrorType::DiskEncoding(msg) => {
                let mut text = String::from_str("Disk encoding error: ");
                text.append(msg.as_str());
                text
            },
            ConvertErrorType::RawImageCreation(msg) => {
                let mut text = String::from_str("Raw image creation error: ");
                text.append(msg.as_str());
                text
            },
        }
    }
}

} // verus!
