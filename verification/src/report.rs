//! Report Emitter: renders the per-function instruction listings into one
//! text artifact. Each function contributes a header line with its name,
//! one line per decoded instruction — the runtime instruction pointer in
//! fixed-width hexadecimal, a space, and the rendered instruction text —
//! and a closing blank line. The rendering is a function of the listings
//! alone, so output is reproducible byte-for-byte across runs.

use vstd::prelude::*;
use vstd::string::StrSliceExecFns;
use vstd::string::StringExecFns;

use crate::disasm::DisassemblyResult;
use crate::disasm::InstrV;
use crate::disasm::instrs_view;

verus! {

/// The character of one hexadecimal digit.
pub open spec fn hex_digit(d: int) -> char {
    if d == 0 {
        '0'
    } else if d == 1 {
        '1'
    } else if d == 2 {
        '2'
    } else if d == 3 {
        '3'
    } else if d == 4 {
        '4'
    } else if d == 5 {
        '5'
    } else if d == 6 {
        '6'
    } else if d == 7 {
        '7'
    } else if d == 8 {
        '8'
    } else if d == 9 {
        '9'
    } else if d == 10 {
        'a'
    } else if d == 11 {
        'b'
    } else if d == 12 {
        'c'
    } else if d == 13 {
        'd'
    } else if d == 14 {
        'e'
    } else {
        'f'
    }
}

/// The hexadecimal representation of a non-negative value, most significant
/// digit first, without leading zeros (a single zero digit for zero).
pub open spec fn hex_rep(v: int) -> Seq<char>
    decreases v,
{
    if v < 16 {
        seq![hex_digit(v)]
    } else {
        hex_rep(v / 16) + seq![hex_digit(v % 16)]
    }
}

/// A run of zero digits.
pub open spec fn zero_chars(n: int) -> Seq<char> {
    Seq::new(n as nat, |i: int| '0')
}

/// The hexadecimal representation of a value, left-padded with zero digits
/// to at least `width` characters.
pub open spec fn hex_fixed(v: int, width: int) -> Seq<char> {
    let rep = hex_rep(v);
    if rep.len() >= width {
        rep
    } else {
        zero_chars(width - rep.len()) + rep
    }
}

/// One hexadecimal digit as text.
fn hex_digit_str(d: u64) -> (r: &'static str)
    requires
        d < 16,
    ensures
        r@ == seq![hex_digit(d as int)],
{
    let s: &'static str = if d == 0 {
        "0"
    } else if d == 1 {
        "1"
    } else if d == 2 {
        "2"
    } else if d == 3 {
        "3"
    } else if d == 4 {
        "4"
    } else if d == 5 {
        "5"
    } else if d == 6 {
        "6"
    } else if d == 7 {
        "7"
    } else if d == 8 {
        "8"
    } else if d == 9 {
        "9"
    } else if d == 10 {
        "a"
    } else if d == 11 {
        "b"
    } else if d == 12 {
        "c"
    } else if d == 13 {
        "d"
    } else if d == 14 {
        "e"
    } else {
        "f"
    };
    proof {
        reveal_strlit("0");
        reveal_strlit("1");
        reveal_strlit("2");
        reveal_strlit("3");
        reveal_strlit("4");
        reveal_strlit("5");
        reveal_strlit("6");
        reveal_strlit("7");
        reveal_strlit("8");
        reveal_strlit("9");
        reveal_strlit("a");
        reveal_strlit("b");
        reveal_strlit("c");
        reveal_strlit("d");
        reveal_strlit("e");
        reveal_strlit("f");
        assert(s@ =~= seq![hex_digit(d as int)]);
    }
    s
}

/// The characters of a digit list, last digit first.
pub open spec fn digits_chars(ds: Seq<u64>) -> Seq<char>
    decreases ds.len(),
{
    if ds.len() == 0 {
        Seq::empty()
    } else {
        seq![hex_digit(ds.last() as int)] + digits_chars(ds.drop_last())
    }
}

proof fn lemma_digits_chars_len(ds: Seq<u64>)
    ensures
        digits_chars(ds).len() == ds.len(),
    decreases ds.len(),
{
    if ds.len() > 0 {
        lemma_digits_chars_len(ds.drop_last());
    }
}

proof fn lemma_digits_chars_prepend(x: u64, t: Seq<u64>)
    ensures
        digits_chars(seq![x] + t) == digits_chars(t) + seq![hex_digit(x as int)],
    decreases t.len(),
{
    let u = seq![x] + t;
    if t.len() == 0 {
        assert(u =~= seq![x]);
        assert(u.last() == x);
        assert(u.drop_last() =~= Seq::<u64>::empty());
        assert(digits_chars(u.drop_last()) == Seq::<char>::empty());
        assert(digits_chars(t) == Seq::<char>::empty());
        assert(digits_chars(u) == seq![hex_digit(u.last() as int)] + digits_chars(u.drop_last()));
        assert(digits_chars(u) =~= digits_chars(t) + seq![hex_digit(x as int)]);
    } else {
        assert(u.len() == t.len() + 1);
        assert(u.last() == t.last());
        assert(u.drop_last() =~= seq![x] + t.drop_last());
        lemma_digits_chars_prepend(x, t.drop_last());
        assert(digits_chars(u) == seq![hex_digit(u.last() as int)] + digits_chars(u.drop_last()));
        assert(digits_chars(t) == seq![hex_digit(t.last() as int)] + digits_chars(t.drop_last()));
        assert(digits_chars(u) =~= digits_chars(t) + seq![hex_digit(x as int)]);
    }
}

/// Renders a value in hexadecimal, left-padded with zero digits to at least
/// `width` characters.
pub fn hex_string(v: u64, width: usize) -> (r: String)
    ensures
        r@ == hex_fixed(v as int, width as int),
{
    let mut digits: Vec<u64> = Vec::new();
    digits.push(v % 16);
    let mut x: u64 = v / 16;
    proof {
        assert(digits@ =~= seq![v % 16]);
        assert(digits@.drop_last() =~= Seq::<u64>::empty());
        assert(digits_chars(Seq::<u64>::empty()) == Seq::<char>::empty());
        assert(digits_chars(digits@) =~= seq![hex_digit((v % 16) as int)]);
        if x == 0 {
            assert(v < 16);
            assert(hex_rep(v as int) == seq![hex_digit(v as int)]);
            assert(hex_rep(v as int) =~= digits_chars(digits@));
        } else {
            assert(v >= 16);
            assert(hex_rep(v as int) == hex_rep(v as int / 16) + seq![hex_digit(v as int % 16)]);
            assert(x as int == v as int / 16);
            assert(hex_rep(v as int) =~= hex_rep(x as int) + digits_chars(digits@));
        }
    }
    while x > 0
        invariant
            digits@.len() >= 1,
            forall|k: int| 0 <= k < digits@.len() ==> digits@[k] < 16,
            x > 0 ==> hex_rep(v as int) == hex_rep(x as int) + digits_chars(digits@),
            x == 0 ==> hex_rep(v as int) == digits_chars(digits@),
        decreases x,
    {
        let ghost digits_old = digits@;
        let ghost x_old = x as int;
        let d = x % 16;
        digits.push(d);
        x = x / 16;
        proof {
            assert(digits@.drop_last() =~= digits_old);
            assert(digits@.last() == d);
            assert(digits_chars(digits@) == seq![hex_digit(d as int)] + digits_chars(digits_old));
            assert(x as int == x_old / 16);
            assert(d as int == x_old % 16);
            if x == 0 {
                assert(x_old < 16);
                assert(hex_rep(x_old) == seq![hex_digit(x_old)]);
                assert(hex_rep(x_old) =~= seq![hex_digit(d as int)]);
                assert(hex_rep(v as int) =~= digits_chars(digits@));
            } else {
                assert(x_old >= 16);
                assert(hex_rep(x_old) == hex_rep(x_old / 16) + seq![hex_digit(x_old % 16)]);
                assert(hex_rep(v as int) =~= hex_rep(x as int) + digits_chars(digits@));
            }
        }
    }
    proof {
        lemma_digits_chars_len(digits@);
    }
    let mut s = String::new();
    let count = digits.len();
    let mut pad: usize = 0;
    if count < width {
        pad = width - count;
    }
    let ghost pad_total = pad as int;
    let mut p: usize = 0;
    while p < pad
        invariant
            0 <= p <= pad_total,
            pad_total == pad as int,
            s@ =~= zero_chars(p as int),
        decreases pad - p,
    {
        s.append("0");
        p = p + 1;
        proof {
            reveal_strlit("0");
            assert(s@ =~= zero_chars(p as int));
        }
    }
    let mut i: usize = count;
    while i > 0
        invariant
            0 <= i <= count,
            count == digits@.len(),
            forall|k: int| 0 <= k < digits@.len() ==> digits@[k] < 16,
            s@ =~= zero_chars(pad_total) + digits_chars(digits@.skip(i as int)),
            hex_rep(v as int) == digits_chars(digits@),
        decreases i,
    {
        proof {
            assert(digits@.skip(i - 1) =~= seq![digits@[i - 1]] + digits@.skip(i as int));
            lemma_digits_chars_prepend(digits@[i - 1], digits@.skip(i as int));
        }
        let piece = hex_digit_str(digits[i - 1]);
        s.append(piece);
        i = i - 1;
        proof {
            assert(s@ =~= zero_chars(pad_total) + digits_chars(digits@.skip(i as int)));
        }
    }
    proof {
        assert(digits@.skip(0) =~= digits@);
        assert(s@ =~= hex_fixed(v as int, width as int));
    }
    s
}

/// What became of one function on its way to the report.
pub enum FunctionOutcome {
    /// The function's bytes were decoded at its corrected runtime address.
    Disassembled(DisassemblyResult),
    /// The function's address range does not lie within the code section;
    /// it contributes a header and no instruction lines.
    OutsideCode,
    /// The corrected runtime address falls outside the 64-bit address
    /// space; it contributes a header and no instruction lines.
    Unmappable,
}

/// One function's entry in the report: its name and its outcome.
pub struct FunctionDisassembly {
    /// The function's name.
    pub name: String,
    /// What became of it.
    pub outcome: FunctionOutcome,
}

/// One instruction line: the runtime instruction pointer in fixed-width
/// hexadecimal, a space, the rendered instruction text, a line break.
pub open spec fn line_of(instr: InstrV) -> Seq<char> {
    hex_fixed(instr.ip, 8) + seq![' '] + instr.text + seq!['\n']
}

/// The instruction lines of one listing, from position `k` on.
pub open spec fn lines_from(instrs: Seq<InstrV>, k: int) -> Seq<char>
    decreases instrs.len() - k,
{
    if k < 0 || k >= instrs.len() {
        Seq::empty()
    } else {
        line_of(instrs[k]) + lines_from(instrs, k + 1)
    }
}

/// The text one function contributes: a header line with its name, its
/// instruction lines, and a closing blank line.
pub open spec fn listing_chars(f: FunctionDisassembly) -> Seq<char> {
    f.name@ + seq![':', '\n'] + (match f.outcome {
        FunctionOutcome::Disassembled(d) => lines_from(instrs_view(d.instructions@), 0),
        FunctionOutcome::OutsideCode => Seq::<char>::empty(),
        FunctionOutcome::Unmappable => Seq::<char>::empty(),
    }) + seq!['\n']
}

/// The report text of the listings from position `i` on.
pub open spec fn emit_from(listings: Seq<FunctionDisassembly>, i: int) -> Seq<char>
    decreases listings.len() - i,
{
    if i < 0 || i >= listings.len() {
        Seq::empty()
    } else {
        listing_chars(listings[i]) + emit_from(listings, i + 1)
    }
}

/// The whole report text: the listings concatenated in extraction order.
pub open spec fn emit_spec(listings: Seq<FunctionDisassembly>) -> Seq<char> {
    emit_from(listings, 0)
}

/// Renders the per-function listings into one text artifact, concatenated
/// in extraction order: per function a header line with its name, one line
/// per decoded instruction, and a closing blank line.
pub fn emit(listings: &Vec<FunctionDisassembly>) -> (r: String)
    ensures
        r@ == emit_spec(listings@),
{
    let mut s = String::new();
    let mut i: usize = 0;
    while i < listings.len()
        invariant
            0 <= i <= listings@.len(),
            emit_spec(listings@) =~= s@ + emit_from(listings@, i as int),
        decreases listings@.len() - i,
    {
        let f = &listings[i];
        s.append(f.name.as_str());
        s.append(":\n");
        proof {
            reveal_strlit(":\n");
            assert(":\n"@ =~= seq![':', '\n']);
        }
        match &f.outcome {
            FunctionOutcome::Disassembled(d) => {
                let ghost iv = instrs_view(d.instructions@);
                let mut k: usize = 0;
                while k < d.instructions.len()
                    invariant
                        0 <= k <= d.instructions@.len(),
                        0 <= i < listings@.len(),
                        iv == instrs_view(d.instructions@),
                        listings@[i as int].outcome == FunctionOutcome::Disassembled(*d),
                        emit_spec(listings@) =~= s@ + lines_from(iv, k as int) + seq!['\n']
                            + emit_from(listings@, i + 1),
                    decreases d.instructions@.len() - k,
                {
                    let instr = &d.instructions[k];
                    let hex = hex_string(instr.runtime_ip, 8);
                    s.append(hex.as_str());
                    s.append(" ");
                    s.append(instr.mnemonic_text.as_str());
                    s.append("\n");
                    proof {
                        reveal_strlit(" ");
                        reveal_strlit("\n");
                        assert(" "@ =~= seq![' ']);
                        assert("\n"@ =~= seq!['\n']);
                        assert(line_of(iv[k as int]) =~= hex_fixed(instr.runtime_ip as int, 8)
                            + seq![' '] + instr.mnemonic_text@ + seq!['\n']);
                        assert(lines_from(iv, k as int) =~= line_of(iv[k as int]) + lines_from(
                            iv,
                            k + 1,
                        ));
                    }
                    k = k + 1;
                }
                proof {
                    assert(lines_from(iv, k as int) =~= Seq::<char>::empty());
                }
            },
            FunctionOutcome::OutsideCode => {},
            FunctionOutcome::Unmappable => {},
        }
        s.append("\n");
        proof {
            reveal_strlit("\n");
            assert("\n"@ =~= seq!['\n']);
        }
        i = i + 1;
    }
    proof {
        assert(emit_from(listings@, i as int) =~= Seq::<char>::empty());
    }
    s
}

} // verus!
