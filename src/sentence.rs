use vstd::prelude::*;

verus! {

/// The message types of the protocol that a decoder can be asked for.
#[derive(Clone, Copy, Debug, PartialEq, Eq, Structural)]
pub enum SentenceType {
    DBK,
    DBS,
    DBT,
    DPT,
    GGA,
    GLL,
    GSA,
    GSV,
    HDT,
    MTW,
    RMC,
    VHW,
    VTG,
    ZDA,
}

/// One sentence as handed over by the framing layer: talker and message type
/// already split off, the data payload without its checksum.
pub struct NmeaSentence<'a> {
    pub talker_id: &'a str,
    pub message_id: SentenceType,
    pub data: &'a str,
    pub checksum: u8,
}

/// Why a sentence could not be decoded.
#[derive(Clone, Debug, PartialEq, Eq)]
pub enum Error {
    /// The payload does not follow the field grammar; `remaining` is the
    /// input that was left at the step that failed.
    ParsingError { remaining: String },
    /// The decoder was handed a sentence of another type.
    WrongSentenceHeader { expected: SentenceType, found: SentenceType },
}

/// The mathematical value of an [`Error`].
pub enum ErrorView {
    ParsingError { remaining: Seq<char> },
    WrongSentenceHeader { expected: SentenceType, found: SentenceType },
}

impl View for Error {
    type V = ErrorView;

    open spec fn view(&self) -> ErrorView {
        match self {
            Error::ParsingError { remaining } => ErrorView::ParsingError { remaining: remaining@ },
            Error::WrongSentenceHeader { expected, found } => ErrorView::WrongSentenceHeader {
                expected: *expected,
                found: *found,
            },
        }
    }
}

} // verus!
