//! Disassembler: decodes a function's byte range, one variable-length
//! instruction at a time, annotating each instruction with its corrected
//! runtime instruction-pointer value. A malformed encoding is reported as an
//! explicit invalid-instruction marker in the rendered text, which preserves
//! byte alignment for the instructions after it; a truncated trailing
//! instruction ends decoding, and its bytes are reported as an undecoded
//! remainder, never silently absorbed.

use vstd::prelude::*;

verus! {

/// The mathematical value of one decoding step: how many bytes the decoder
/// consumed, the rendered instruction text, and whether the step ran out of
/// bytes mid-instruction.
pub ghost struct StepV {
    /// Bytes consumed by this step.
    pub consumed: int,
    /// The rendered instruction text.
    pub text: Seq<char>,
    /// Whether the bytes end mid-instruction.
    pub truncated: bool,
}

/// What the instruction decoder returns on the given byte tail at the given
/// instruction-pointer value. The decoder and the text formatting convention
/// are deterministic: the result depends on the bytes and the
/// instruction-pointer value alone, so output is reproducible across runs.
pub uninterp spec fn decoded_step_of(tail: Seq<u8>, ip: u64) -> StepV;

/// One decoding step, as plain values.
pub struct DecodeStep {
    /// Bytes consumed by this step.
    pub length: usize,
    /// The rendered instruction text; an explicit marker where the encoding
    /// is invalid.
    pub text: String,
    /// Whether the bytes end mid-instruction.
    pub truncated: bool,
}

impl View for DecodeStep {
    type V = StepV;

    open spec fn view(&self) -> StepV {
        StepV { consumed: self.length as int, text: self.text@, truncated: self.truncated }
    }
}

/// Relies on iced-x86's 64-bit decoder and its gas-syntax formatter, with a
/// fixed formatting convention (digit separator and first-operand column).
/// One decoding step always consumes at least one byte and never reads past
/// the end; where the bytes end mid-instruction (`DecoderError::NoMoreBytes`,
/// raised only within the last few bytes) it consumes exactly the remainder.
/// An invalid encoding yields a marker text and a positive length, keeping
/// byte alignment. Decoder and formatter are deterministic functions of the
/// bytes and the instruction-pointer value.
#[verifier::external_body]
fn decode_step(code: &[u8], pos: usize, ip: u64) -> (r: DecodeStep)
    requires
        pos < code@.len(),
    ensures
        1 <= r.length,
        pos + r.length <= code@.len(),
        r.truncated ==> pos + r.length == code@.len(),
        r@ == decoded_step_of(code@.skip(pos as int), ip),
{
    let mut decoder = iced_x86::Decoder::with_ip(64, &code[pos..], ip, iced_x86::DecoderOptions::NONE);
    let instruction = decoder.decode();
    let mut formatter = iced_x86::GasFormatter::new();
    iced_x86::Formatter::options_mut(&mut formatter).set_digit_separator("`");
    iced_x86::Formatter::options_mut(&mut formatter).set_first_operand_char_index(10);
    let mut text = String::new();
    iced_x86::Formatter::format(&mut formatter, &instruction, &mut text);
    let truncated = match decoder.last_error() {
        iced_x86::DecoderError::NoMoreBytes => true,
        _ => false,
    };
    DecodeStep { length: decoder.position(), text, truncated }
}

/// The byte count of one decoding step, kept within the tail's bounds so
/// that decoding always advances and never passes the end.
pub open spec fn step_consumed(tail: Seq<u8>, ip: u64) -> int {
    let c = decoded_step_of(tail, ip).consumed;
    if 1 <= c && c <= tail.len() {
        c
    } else {
        1
    }
}

/// One decoded machine instruction: its runtime instruction-pointer value,
/// its encoded length, and its rendered text.
pub struct DecodedInstruction {
    /// The instruction's runtime address: the runtime start address plus the
    /// bytes consumed before it.
    pub runtime_ip: u64,
    /// The instruction's encoded length in bytes.
    pub byte_length: usize,
    /// The rendered instruction text.
    pub mnemonic_text: String,
}

/// The mathematical value of a [`DecodedInstruction`].
pub ghost struct InstrV {
    /// The instruction's runtime address.
    pub ip: int,
    /// The instruction's encoded length in bytes.
    pub len: int,
    /// The rendered instruction text.
    pub text: Seq<char>,
}

impl View for DecodedInstruction {
    type V = InstrV;

    open spec fn view(&self) -> InstrV {
        InstrV {
            ip: self.runtime_ip as int,
            len: self.byte_length as int,
            text: self.mnemonic_text@,
        }
    }
}

/// The views of an instruction list.
pub open spec fn instrs_view(s: Seq<DecodedInstruction>) -> Seq<InstrV> {
    s.map_values(|d: DecodedInstruction| d@)
}

/// The mathematical value of a whole disassembly: the decoded instructions
/// and the length of the undecoded trailing remainder.
pub ghost struct DisasV {
    /// The decoded instructions, in byte order.
    pub instrs: Seq<InstrV>,
    /// Length of the undecoded trailing remainder.
    pub undecoded: int,
}

/// The disassembly of `code` from byte position `pos`, with runtime start
/// address `start`: one step after another until the bytes are consumed or a
/// step ends mid-instruction, whereupon the remainder stays undecoded.
pub open spec fn disas_from(code: Seq<u8>, start: u64, pos: int) -> DisasV
    decreases code.len() - pos,
{
    if pos < 0 || pos >= code.len() {
        DisasV { instrs: Seq::empty(), undecoded: 0 }
    } else {
        let ip = (start + pos) as u64;
        let step = decoded_step_of(code.skip(pos), ip);
        let c = step_consumed(code.skip(pos), ip);
        if step.truncated {
            DisasV { instrs: Seq::empty(), undecoded: code.len() - pos }
        } else {
            let rest = disas_from(code, start, pos + c);
            DisasV {
                instrs: seq![InstrV { ip: start + pos, len: c, text: step.text }] + rest.instrs,
                undecoded: rest.undecoded,
            }
        }
    }
}

/// The disassembly of a whole byte slice at runtime start address `start`.
pub open spec fn disas_spec(code: Seq<u8>, start: u64) -> DisasV {
    disas_from(code, start, 0)
}

/// Sum of the byte lengths of a decoded instruction sequence.
pub open spec fn total_decoded_len(instrs: Seq<InstrV>) -> int
    decreases instrs.len(),
{
    if instrs.len() == 0 {
        0
    } else {
        total_decoded_len(instrs.drop_last()) + instrs.last().len
    }
}

/// An ordered sequence of decoded instructions, together with the length of
/// the undecoded trailing remainder of the byte slice.
pub struct DisassemblyResult {
    /// The decoded instructions, in byte order.
    pub instructions: Vec<DecodedInstruction>,
    /// Length of the trailing remainder that could not be decoded because
    /// the bytes end mid-instruction; its bytes appear in no instruction.
    pub undecoded_tail: usize,
}

/// Decodes the byte slice of one function, from its runtime start address.
/// Each instruction's reported pointer is the start address plus the bytes
/// consumed before it; the byte lengths and the undecoded remainder add up
/// exactly to the slice's length; and the outcome equals [`disas_spec`] of
/// the bytes and the start address alone, so decoding the same bytes twice
/// from the same address yields identical sequences.
pub fn disassemble(code: &[u8], runtime_start: u64) -> (r: DisassemblyResult)
    requires
        runtime_start + code@.len() <= u64::MAX,
    ensures
        instrs_view(r.instructions@) == disas_spec(code@, runtime_start).instrs,
        r.undecoded_tail == disas_spec(code@, runtime_start).undecoded,
        total_decoded_len(instrs_view(r.instructions@)) + r.undecoded_tail == code@.len(),
        forall|k: int|
            0 <= k < r.instructions@.len() ==> (#[trigger] r.instructions@[k]@).len >= 1,
        forall|k: int|
            0 <= k < r.instructions@.len() ==> (#[trigger] r.instructions@[k]@).ip
                == runtime_start + total_decoded_len(instrs_view(r.instructions@).take(k)),
        r.instructions@.len() > 0 ==> r.instructions@[0]@.ip == runtime_start as int,
{
    let ghost full = disas_spec(code@, runtime_start);
    let mut out: Vec<DecodedInstruction> = Vec::new();
    let mut pos: usize = 0;
    let mut tail: usize = 0;
    let mut stopped: bool = false;
    while pos < code.len() && !stopped
        invariant
            0 <= pos <= code@.len(),
            runtime_start + code@.len() <= u64::MAX,
            full == disas_spec(code@, runtime_start),
            !stopped ==> full.instrs =~= instrs_view(out@) + disas_from(
                code@,
                runtime_start,
                pos as int,
            ).instrs,
            !stopped ==> full.undecoded == disas_from(code@, runtime_start, pos as int).undecoded,
            !stopped ==> tail == 0,
            stopped ==> full.instrs =~= instrs_view(out@),
            stopped ==> full.undecoded == tail && pos + tail == code@.len(),
            total_decoded_len(instrs_view(out@)) == pos,
            out@.len() > 0 ==> instrs_view(out@)[0].ip == runtime_start as int,
            forall|k: int| 0 <= k < out@.len() ==> (#[trigger] out@[k]@).len >= 1,
            forall|k: int|
                0 <= k < out@.len() ==> (#[trigger] out@[k]@).ip == runtime_start
                    + total_decoded_len(instrs_view(out@).take(k)),
        decreases code@.len() - pos, (if stopped {
            0int
        } else {
            1
        }),
    {
        let ip = runtime_start + pos as u64;
        let step = decode_step(code, pos, ip);
        let ghost tail_bytes = code@.skip(pos as int);
        proof {
            assert(step_consumed(tail_bytes, ip) == step.length as int);
        }
        if step.truncated {
            tail = code.len() - pos;
            stopped = true;
        } else {
            let ghost out_old = out@;
            out.push(
                DecodedInstruction {
                    runtime_ip: ip,
                    byte_length: step.length,
                    mnemonic_text: step.text,
                },
            );
            proof {
                assert(instrs_view(out@) =~= instrs_view(out_old).push(
                    InstrV { ip: ip as int, len: step.length as int, text: step@.text },
                ));
                assert(instrs_view(out@).drop_last() =~= instrs_view(out_old));
                assert forall|k: int| 0 <= k < out@.len() implies (#[trigger] out@[k]@).ip
                    == runtime_start + total_decoded_len(instrs_view(out@).take(k)) by {
                    if k < out@.len() - 1 {
                        assert(instrs_view(out@).take(k) =~= instrs_view(out_old).take(k));
                        assert(out@[k]@ == instrs_view(out_old)[k]);
                    } else {
                        assert(instrs_view(out@).take(k) =~= instrs_view(out_old));
                        assert(out@[k]@.ip == ip as int);
                    }
                }
                assert(disas_from(code@, runtime_start, pos as int).instrs == seq![
                    InstrV { ip: ip as int, len: step.length as int, text: step@.text },
                ] + disas_from(code@, runtime_start, pos + step.length).instrs);
                assert(full.instrs =~= instrs_view(out@) + disas_from(
                    code@,
                    runtime_start,
                    pos + step.length,
                ).instrs);
                if out_old.len() == 0 {
                    assert(total_decoded_len(instrs_view(out_old)) == 0);
                    assert(pos == 0);
                }
            }
            pos = pos + step.length;
        }
    }
    proof {
        if !stopped {
            assert(disas_from(code@, runtime_start, pos as int).instrs =~= Seq::<InstrV>::empty());
            assert(full.instrs =~= instrs_view(out@));
        }
    }
    DisassemblyResult { instructions: out, undecoded_tail: tail }
}

/// Law: disassembly is deterministic and restartable. Any two disassembly
/// outcomes over the same byte slice and the same runtime start address are
/// byte-identical instruction sequences with the same undecoded remainder.
pub proof fn lemma_disassembly_deterministic(
    code: Seq<u8>,
    start: u64,
    i1: Seq<InstrV>,
    u1: int,
    i2: Seq<InstrV>,
    u2: int,
)
    requires
        i1 == disas_spec(code, start).instrs,
        u1 == disas_spec(code, start).undecoded,
        i2 == disas_spec(code, start).instrs,
        u2 == disas_spec(code, start).undecoded,
    ensures
        i1 == i2,
        u1 == u2,
{
}

} // verus!
