//! The feature report: a buffer of 91 bytes laid out from an encoded command.
//!
//! | bytes        | content                         |
//! |--------------|---------------------------------|
//! | 0 .. 6       | header: report id, status, padding, all zero |
//! | 6 .. 10      | opcode                          |
//! | 10 .. 10 + n | the n argument bytes            |
//! | .. 89        | zero padding                    |
//! | 89           | footer                          |
//! | 90           | terminator, zero                |

use crate::command::{supported, table_entry, CommandKind, CommandSpec, Encoding, OPCODE_LEN};
use crate::error::ProtocolError;
use vstd::prelude::*;

verus! {

/// Length of every report.
pub const REPORT_LEN: usize = 91;

/// Length of the zero header in front of the opcode.
pub const HEADER_LEN: usize = 6;

/// Where the footer stands.
pub const FOOTER_OFFSET: usize = 89;

/// Room for opcode and argument bytes together, between header and footer.
pub const PAYLOAD_CAPACITY: usize = 83;

/// A report ready to be written to the device.
#[derive(Debug, PartialEq, Eq)]
pub struct Report {
    bytes: Vec<u8>,
}

/// `count` zero bytes.
pub open spec fn zeros(count: nat) -> Seq<u8> {
    Seq::new(count, |i: int| 0u8)
}

/// Whether opcode and argument bytes leave the footer in its place.
pub open spec fn fits(encoding: Encoding) -> bool {
    encoding.opcode.len() + encoding.argument_bytes.len() <= PAYLOAD_CAPACITY
}

/// Number of zero bytes between the argument bytes and the footer.
pub open spec fn padding_len(encoding: Encoding) -> nat
    recommends
        fits(encoding),
{
    (PAYLOAD_CAPACITY - encoding.opcode.len() - encoding.argument_bytes.len()) as nat
}

/// The bytes of the report of an encoded command, region after region.
pub open spec fn report_layout(encoding: Encoding) -> Seq<u8>
    recommends
        fits(encoding),
{
    zeros(HEADER_LEN as nat) + encoding.opcode + encoding.argument_bytes + zeros(
        padding_len(encoding),
    ) + seq![encoding.footer] + seq![0u8]
}

impl View for Report {
    type V = Seq<u8>;

    closed spec fn view(&self) -> Seq<u8> {
        self.bytes@
    }
}

impl Report {
    #[verifier::type_invariant]
    spec fn full_length(&self) -> bool {
        self.bytes@.len() == REPORT_LEN
    }

    /// The 91 bytes, as they are written to the device.
    pub fn as_bytes(&self) -> (bytes: &[u8])
        ensures
            bytes@ == self@,
            bytes@.len() == REPORT_LEN,
    {
        proof {
            use_type_invariant(self);
        }
        self.bytes.as_slice()
    }
}

/// Appends `count` zero bytes.
fn push_zeros(buffer: &mut Vec<u8>, count: usize)
    ensures
        final(buffer)@ == old(buffer)@ + zeros(count as nat),
{
    let mut pushed: usize = 0;
    while pushed < count
        invariant
            pushed <= count,
            buffer@ == old(buffer)@ + zeros(pushed as nat),
        decreases count - pushed,
    {
        buffer.push(0x00);
        pushed = pushed + 1;
        assert(buffer@ =~= old(buffer)@ + zeros(pushed as nat));
    }
}

/// Appends the bytes of a slice.
fn push_bytes(buffer: &mut Vec<u8>, bytes: &[u8])
    ensures
        final(buffer)@ == old(buffer)@ + bytes@,
{
    let mut pushed: usize = 0;
    while pushed < bytes.len()
        invariant
            pushed <= bytes@.len(),
            buffer@ == old(buffer)@ + bytes@.subrange(0, pushed as int),
        decreases bytes@.len() - pushed,
    {
        buffer.push(bytes[pushed]);
        pushed = pushed + 1;
        assert(buffer@ =~= old(buffer)@ + bytes@.subrange(0, pushed as int));
    }
    assert(bytes@.subrange(0, pushed as int) =~= bytes@);
}

/// Lays out the report of an encoded command.
///
/// Fails with `EncodingOverflow` where opcode and argument bytes together
/// exceed the room between header and footer.
pub fn build_report(spec: &CommandSpec) -> (result: Result<Report, ProtocolError>)
    ensures
        fits(spec@) ==> result is Ok && result->Ok_0@ == report_layout(spec@),
        !fits(spec@) ==> result == Err::<Report, ProtocolError>(ProtocolError::EncodingOverflow),
        result is Ok ==> result->Ok_0@.len() == REPORT_LEN,
{
    if spec.argument_bytes.len() > PAYLOAD_CAPACITY - OPCODE_LEN {
        return Err(ProtocolError::EncodingOverflow);
    }
    let mut bytes: Vec<u8> = Vec::with_capacity(REPORT_LEN);
    push_zeros(&mut bytes, HEADER_LEN);
    push_bytes(&mut bytes, spec.opcode.as_slice());
    push_bytes(&mut bytes, spec.argument_bytes.as_slice());
    let padding: usize = FOOTER_OFFSET - bytes.len();
    push_zeros(&mut bytes, padding);
    bytes.push(spec.footer);
    bytes.push(0x00);
    assert(bytes@ =~= report_layout(spec@));
    Ok(Report { bytes })
}

/// Every report has the same length: header, opcode, argument bytes,
/// padding, footer and terminator of an encoding that fits add up to 91.
pub proof fn lemma_layout_adds_up(encoding: Encoding)
    requires
        fits(encoding),
    ensures
        HEADER_LEN + encoding.opcode.len() + encoding.argument_bytes.len() + padding_len(encoding)
            + 1 + 1 == REPORT_LEN,
        report_layout(encoding).len() == REPORT_LEN,
{
}

/// The regions of a report stand where the layout table puts them.
pub proof fn lemma_report_regions(encoding: Encoding)
    requires
        fits(encoding),
        encoding.opcode.len() == OPCODE_LEN,
    ensures
        report_layout(encoding).subrange(0, HEADER_LEN as int) == zeros(HEADER_LEN as nat),
        report_layout(encoding).subrange(HEADER_LEN as int, HEADER_LEN + OPCODE_LEN)
            == encoding.opcode,
        report_layout(encoding).subrange(
            HEADER_LEN + OPCODE_LEN,
            HEADER_LEN + OPCODE_LEN + encoding.argument_bytes.len(),
        ) == encoding.argument_bytes,
        forall|i: int|
            HEADER_LEN + OPCODE_LEN + encoding.argument_bytes.len() <= i < FOOTER_OFFSET
                ==> report_layout(encoding)[i] == 0,
        report_layout(encoding)[FOOTER_OFFSET as int] == encoding.footer,
        report_layout(encoding)[FOOTER_OFFSET + 1] == 0,
{
    let layout = report_layout(encoding);
    assert(layout.subrange(0, HEADER_LEN as int) =~= zeros(HEADER_LEN as nat));
    assert(layout.subrange(HEADER_LEN as int, HEADER_LEN + OPCODE_LEN) =~= encoding.opcode);
    assert(layout.subrange(
        HEADER_LEN + OPCODE_LEN,
        HEADER_LEN + OPCODE_LEN + encoding.argument_bytes.len(),
    ) =~= encoding.argument_bytes);
}

/// The table never overflows a report: the entry of every supported command
/// has four opcode bytes and one to four argument bytes, so its report exists
/// and is 91 bytes long.
pub proof fn lemma_table_entries_fit(command: CommandKind)
    requires
        supported(command),
    ensures
        table_entry(command)->Some_0.opcode.len() == OPCODE_LEN,
        1 <= table_entry(command)->Some_0.argument_bytes.len() <= 4,
        fits(table_entry(command)->Some_0),
        report_layout(table_entry(command)->Some_0).len() == REPORT_LEN,
        HEADER_LEN + OPCODE_LEN + table_entry(command)->Some_0.argument_bytes.len() + padding_len(
            table_entry(command)->Some_0,
        ) + 1 + 1 == REPORT_LEN,
{
}

} // verus!
