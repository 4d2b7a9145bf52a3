//! Small text operations on which the rest of the library is built.
use vstd::prelude::*;
use crate::types::{AsmOutput, AsmOutputItem, CompilerInfo, OutputItem, SomeOutput};

verus! {

/// Whether two texts hold the same characters.
pub fn same_text(a: &str, b: &str) -> (r: bool)
    ensures
        r == (a@ == b@),
{
    let n = a.unicode_len();
    let m = b.unicode_len();
    if n != m {
        return false;
    }
    let mut i: usize = 0;
    while i < n
        invariant
            n == a@.len(),
            m == b@.len(),
            n == m,
            i <= n,
            forall|j: int| 0 <= j < i ==> a@[j] == b@[j],
        decreases n - i,
    {
        if a.get_char(i) != b.get_char(i) {
            return false;
        }
        i = i + 1;
    }
    assert(a@ =~= b@);
    true
}

/// The lines of `lines` joined by line breaks, with none after the last.
pub open spec fn joined(lines: Seq<Seq<char>>) -> Seq<char>
    decreases lines.len(),
{
    if lines.len() == 0 {
        Seq::empty()
    } else if lines.len() == 1 {
        lines[0]
    } else {
        joined(lines.drop_last()) + "\n"@ + lines.last()
    }
}

/// The decimal digit of `d`, for `d < 10`.
pub open spec fn digit_char(d: nat) -> char {
    seq!['0', '1', '2', '3', '4', '5', '6', '7', '8', '9'][d as int]
}

/// The decimal digits of `n`, without leading zeros (one zero for zero).
pub open spec fn digits(n: nat) -> Seq<char>
    decreases n,
{
    if n < 10 {
        seq![digit_char(n)]
    } else {
        digits(n / 10) + seq![digit_char(n % 10)]
    }
}

/// `n` written in decimal, with a minus sign when it is negative.
pub open spec fn decimal(n: int) -> Seq<char> {
    if n < 0 {
        seq!['-'] + digits((-n) as nat)
    } else {
        digits(n as nat)
    }
}

/// The one-digit text of `d`.
fn digit_text(d: u32) -> (r: &'static str)
    requires
        d < 10,
    ensures
        r@ == seq![digit_char(d as nat)],
{
    proof {
        reveal_strlit("0");
        reveal_strlit("1");
        reveal_strlit("2");
        reveal_strlit("3");
        reveal_strlit("4");
        reveal_strlit("5");
        reveal_strlit("6");
        reveal_strlit("7");
        reveal_strlit("8");
        reveal_strlit("9");
    }
    let r = match d {
        0 => "0",
        1 => "1",
        2 => "2",
        3 => "3",
        4 => "4",
        5 => "5",
        6 => "6",
        7 => "7",
        8 => "8",
        _ => "9",
    };
    assert(r@ =~= seq![digit_char(d as nat)]);
    r
}

/// `n` written in decimal.
pub fn decimal_text(n: i32) -> (r: String)
    ensures
        r@ == decimal(n as int),
{
    let mut m: u32 = if n < 0 {
        (0i64 - n as i64) as u32
    } else {
        n as u32
    };
    let ghost whole: nat = m as nat;
    let mut r = String::new();
    loop
        invariant_except_break
            digits(whole) == digits(m as nat) + r@,
        invariant
            whole == 0 ==> m == 0,
            n < 0 ==> whole == -(n as int),
            n >= 0 ==> whole == n as int,
        ensures
            digits(whole) == r@,
        decreases m,
    {
        let d = m % 10;
        let ghost before = m as nat;
        r = String::from_str(digit_text(d)).concat(r.as_str());
        m = m / 10;
        if m == 0 {
            assert(digits(whole) =~= r@);
            break;
        }
        assert(digits(before) == digits(m as nat) + seq![digit_char(d as nat)]);
        assert(digits(whole) =~= digits(m as nat) + r@);
    }
    if n < 0 {
        proof {
            reveal_strlit("-");
        }
        assert("-"@ =~= seq!['-']);
        String::from_str("-").concat(r.as_str())
    } else {
        r
    }
}

/// The texts of lines of output.
pub open spec fn output_texts(items: Seq<OutputItem>) -> Seq<Seq<char>> {
    items.map_values(|x: OutputItem| x.text@)
}

/// The texts of lines of assembly.
pub open spec fn asm_texts(items: Seq<AsmOutputItem>) -> Seq<Seq<char>> {
    items.map_values(|x: AsmOutputItem| x.text@)
}

/// The one-line description of a compiler.
pub open spec fn compiler_line(c: CompilerInfo) -> Seq<char> {
    "\""@ + c.name@ + "\", id: "@ + c.id@ + ", language: "@ + c.lang@ + ", type: "@
        + c.compilerType@ + ", version: "@ + c.semver@ + ", ISA: "@ + c.instructionSet@
}

impl CompilerInfo {
    /// The name in quotes, then id, language, type, version and instruction
    /// set, each after its label.
    pub fn to_text(&self) -> (r: String)
        ensures
            r@ == compiler_line(*self),
    {
        String::from_str("\"").concat(self.name.as_str()).concat("\", id: ").concat(
            self.id.as_str(),
        ).concat(", language: ").concat(self.lang.as_str()).concat(", type: ").concat(
            self.compilerType.as_str(),
        ).concat(", version: ").concat(self.semver.as_str()).concat(", ISA: ").concat(
            self.instructionSet.as_str(),
        )
    }
}

impl SomeOutput {
    /// The lines of the stream, joined by line breaks.
    pub fn to_text(&self) -> (r: String)
        ensures
            r@ == joined(output_texts(self.0@)),
    {
        let ghost lines = output_texts(self.0@);
        let mut r = String::new();
        let mut i: usize = 0;
        while i < self.0.len()
            invariant
                i <= self.0@.len(),
                lines == output_texts(self.0@),
                r@ == joined(lines.subrange(0, i as int)),
            decreases self.0@.len() - i,
        {
            if i > 0 {
                r.append("\n");
            }
            r.append(self.0[i].text.as_str());
            proof {
                let next = lines.subrange(0, i + 1);
                assert(next.drop_last() =~= lines.subrange(0, i as int));
                if i == 0 {
                    assert(r@ =~= joined(next));
                }
            }
            i = i + 1;
        }
        assert(lines.subrange(0, self.0@.len() as int) =~= lines);
        r
    }
}

impl AsmOutput {
    /// The lines of assembly, joined by line breaks.
    pub fn to_text(&self) -> (r: String)
        ensures
            r@ == joined(asm_texts(self.0@)),
    {
        let ghost lines = asm_texts(self.0@);
        let mut r = String::new();
        let mut i: usize = 0;
        while i < self.0.len()
            invariant
                i <= self.0@.len(),
                lines == asm_texts(self.0@),
                r@ == joined(lines.subrange(0, i as int)),
            decreases self.0@.len() - i,
        {
            if i > 0 {
                r.append("\n");
            }
            r.append(self.0[i].text.as_str());
            proof {
                let next = lines.subrange(0, i + 1);
                assert(next.drop_last() =~= lines.subrange(0, i as int));
                if i == 0 {
                    assert(r@ =~= joined(next));
                }
            }
            i = i + 1;
        }
        assert(lines.subrange(0, self.0@.len() as int) =~= lines);
        r
    }
}

} // verus!
