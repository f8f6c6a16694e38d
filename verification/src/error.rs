//! The library's error type. Every failure a library operation can report
//! carries enough data to render an exact diagnostic message.

use vstd::prelude::*;
use vstd::string::StringExecFns;

use crate::encoding::DimTypeEncoding;
use crate::encoding::spec_encoding_name;
use crate::utils::decimal_string;
use crate::utils::spec_decimal;

verus! {

/// Whether `pat` occurs contiguously inside `s`.
pub open spec fn spec_contains_substr(s: Seq<char>, pat: Seq<char>) -> bool {
    exists|k: int|
        0 <= k && k + pat.len() <= s.len() && #[trigger] s.subrange(k, k + pat.len()) == pat
}

/// A failure reported by the library.
#[derive(Clone, Copy, PartialEq, Eq, Structural, Debug)]
pub enum Error {
    /// The pipeline text is not well-formed JSON of the expected shape.
    PipelineSyntax,
    /// The pipeline's stage list is empty.
    EmptyPipeline,
    /// No reader could be inferred for the first pipeline stage.
    NoReaderStage,
    /// A later pipeline stage names neither a stage type nor a filename.
    StageTypeUnknown,
    /// A dimension identifier is not part of the layout at hand.
    UnknownDimension,
    /// A point index lies beyond the end of the view.
    PointOutOfRange { index: u64, len: u64 },
    /// A value was requested as a type other than its storage encoding.
    TypeMismatch { want: DimTypeEncoding },
    /// A layout's dimensions would not fit the addressable range.
    LayoutOverflow,
    /// The same dimension identifier appears twice in a layout.
    DuplicateDimension,
    /// A layout dimension carries the unspecified encoding.
    UnspecifiedEncoding,
    /// A point buffer's length does not match the layout and point count.
    DataSizeMismatch { actual: usize },
    /// Version components outside the ranges the version integer encodes.
    VersionOutOfRange,
    /// A native string did not fit the caller's marshalling buffer.
    BufferTooSmall { needed: usize, capacity: usize },
}

/// The diagnostic message of each error.
pub open spec fn spec_error_message(e: Error) -> Seq<char> {
    match e {
        Error::PipelineSyntax => "invalid pipeline JSON"@,
        Error::EmptyPipeline => "pipeline contains no stages"@,
        Error::NoReaderStage => "couldn't infer a reader for the first pipeline stage"@,
        Error::StageTypeUnknown => "couldn't infer a stage type for a later pipeline stage"@,
        Error::UnknownDimension => "dimension is not present in the layout"@,
        Error::PointOutOfRange { index, len } => "point index "@ + spec_decimal(index as nat)
            + " is out of range for a view of "@ + spec_decimal(len as nat) + " points"@,
        Error::TypeMismatch { want } => "failed to convert value to type "@ + spec_encoding_name(
            want,
        ),
        Error::LayoutOverflow => "layout byte size exceeds the addressable range"@,
        Error::DuplicateDimension => "duplicate dimension identifier in layout"@,
        Error::UnspecifiedEncoding => "dimension with an unspecified encoding in layout"@,
        Error::DataSizeMismatch { actual } => "point buffer of "@ + spec_decimal(actual as nat)
            + " bytes does not match the layout and point count"@,
        Error::VersionOutOfRange => "version components are out of range"@,
        Error::BufferTooSmall { needed, capacity } => "native string of "@ + spec_decimal(
            needed as nat,
        ) + " bytes exceeds the marshalling buffer of "@ + spec_decimal(capacity as nat)
            + " bytes"@,
    }
}

impl Error {
    /// Render the diagnostic message.
    pub fn message(&self) -> (r: String)
        ensures
            r@ == spec_error_message(*self),
    {
        match *self {
            Error::PipelineSyntax => String::from_str("invalid pipeline JSON"),
            Error::EmptyPipeline => String::from_str("pipeline contains no stages"),
            Error::NoReaderStage => String::from_str(
                "couldn't infer a reader for the first pipeline stage",
            ),
            Error::StageTypeUnknown => String::from_str(
                "couldn't infer a stage type for a later pipeline stage",
            ),
            Error::UnknownDimension => String::from_str("dimension is not present in the layout"),
            Error::PointOutOfRange { index, len } => {
                let mut m = String::from_str("point index ");
                let d = decimal_string(index);
                m.append(d.as_str());
                m.append(" is out of range for a view of ");
                let d2 = decimal_string(len);
                m.append(d2.as_str());
                m.append(" points");
                proof {
                    assert(m@ =~= spec_error_message(*self));
                }
                m
            },
            Error::TypeMismatch { want } => {
                let mut m = String::from_str("failed to convert value to type ");
                m.append(want.name());
                proof {
                    assert(m@ =~= spec_error_message(*self));
                }
                m
            },
            Error::LayoutOverflow => String::from_str(
                "layout byte size exceeds the addressable range",
            ),
            Error::DuplicateDimension => String::from_str(
                "duplicate dimension identifier in layout",
            ),
            Error::UnspecifiedEncoding => String::from_str(
                "dimension with an unspecified encoding in layout",
            ),
            Error::DataSizeMismatch { actual } => {
                let mut m = String::from_str("point buffer of ");
                let d = decimal_string(actual as u64);
                m.append(d.as_str());
                m.append(" bytes does not match the layout and point count");
                proof {
                    assert(m@ =~= spec_error_message(*self));
                }
                m
            },
            Error::VersionOutOfRange => String::from_str("version components are out of range"),
            Error::BufferTooSmall { needed, capacity } => {
                let mut m = String::from_str("native string of ");
                let d = decimal_string(needed as u64);
                m.append(d.as_str());
                m.append(" bytes exceeds the marshalling buffer of ");
                let d2 = decimal_string(capacity as u64);
                m.append(d2.as_str());
                m.append(" bytes");
                proof {
                    assert(m@ =~= spec_error_message(*self));
                }
                m
            },
        }
    }
}

/// The reader-inference failure names the missing stage category: its
/// message contains the word "reader".
pub proof fn lemma_no_reader_message_names_reader()
    ensures
        spec_contains_substr(spec_error_message(Error::NoReaderStage), "reader"@),
{
    reveal_strlit("couldn't infer a reader for the first pipeline stage");
    reveal_strlit("reader");
    let s = spec_error_message(Error::NoReaderStage);
    let pat = "reader"@;
    assert(s.subrange(17, 17 + pat.len() as int) =~= pat);
    assert(s.subrange(17, 17 + pat.len() as int) == pat);
}

} // verus!
