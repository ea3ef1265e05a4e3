//! The decode and encode adapters between wire lines and typed messages.
//!
//! The concrete grammar of the textual protocol is delegated to an external
//! parser and serializer; the core carries each decoded unit as an opaque,
//! cloneable value whose identity is its canonical wire text.

use vstd::prelude::*;
use vstd::string::StrSliceExecFns;

use vampirc_uci::Serializable;

use crate::error::{BridgeError, Direction, ErrView, ErrorKind};

verus! {

/// One decoded protocol unit. The core never looks inside it: it carries the
/// unit's canonical wire text (without the line terminator) and hands it back
/// to the external serializer's output form on the way out.
#[derive(Debug)]
pub struct Msg {
    text: String,
}

impl View for Msg {
    type V = Seq<char>;

    closed spec fn view(&self) -> Seq<char> {
        self.text@
    }
}

impl Clone for Msg {
    fn clone(&self) -> (r: Msg)
        ensures
            r@ == self@,
    {
        Msg { text: self.text.clone() }
    }
}

impl Msg {
    /// Wraps a canonical wire text as a message value.
    pub fn new(text: String) -> (m: Msg)
        ensures
            m@ == text@,
    {
        Msg { text }
    }

    /// The canonical wire text of this message, without the line terminator.
    pub fn text(&self) -> (t: &String)
        ensures
            t@ == self@,
    {
        &self.text
    }

    /// Gives the canonical wire text up, consuming the message.
    pub fn into_text(self) -> (t: String)
        ensures
            t@ == self@,
    {
        self.text
    }
}

/// The canonical texts of the protocol messages that the delegated grammar
/// reads out of one wire line: zero for a blank line, one for an ordinary
/// command, and whatever the grammar says otherwise. The list is a function
/// of the line alone.
pub uninterp spec fn line_msg_texts(line: Seq<char>) -> Seq<Seq<char>>;

/// A wire token separator: space, tab, carriage return or newline.
pub open spec fn ws_char(c: char) -> bool {
    c == ' ' || c == '\t' || c == '\r' || c == '\n'
}

/// An ASCII decimal digit.
pub open spec fn digit_char(c: char) -> bool {
    '0' as u32 <= c as u32 && c as u32 <= '9' as u32
}

/// One character, either case.
pub open spec fn ci_eq(c: char, lower: char, upper: char) -> bool {
    c == lower || c == upper
}

/// The word `depth` starts at `i`, in either case.
pub open spec fn depth_at(s: Seq<char>, i: int) -> bool {
    &&& 0 <= i
    &&& i + 5 <= s.len()
    &&& ci_eq(s[i], 'd', 'D')
    &&& ci_eq(s[i + 1], 'e', 'E')
    &&& ci_eq(s[i + 2], 'p', 'P')
    &&& ci_eq(s[i + 3], 't', 'T')
    &&& ci_eq(s[i + 4], 'h', 'H')
}

/// The word `seldepth` starts at `i`, in either case.
pub open spec fn seldepth_at(s: Seq<char>, i: int) -> bool {
    &&& 0 <= i
    &&& i + 8 <= s.len()
    &&& ci_eq(s[i], 's', 'S')
    &&& ci_eq(s[i + 1], 'e', 'E')
    &&& ci_eq(s[i + 2], 'l', 'L')
    &&& ci_eq(s[i + 3], 'd', 'D')
    &&& ci_eq(s[i + 4], 'e', 'E')
    &&& ci_eq(s[i + 5], 'p', 'P')
    &&& ci_eq(s[i + 6], 't', 'T')
    &&& ci_eq(s[i + 7], 'h', 'H')
}

/// The word `mate` starts at `i`, in either case.
pub open spec fn mate_at(s: Seq<char>, i: int) -> bool {
    &&& 0 <= i
    &&& i + 4 <= s.len()
    &&& ci_eq(s[i], 'm', 'M')
    &&& ci_eq(s[i + 1], 'a', 'A')
    &&& ci_eq(s[i + 2], 't', 'T')
    &&& ci_eq(s[i + 3], 'e', 'E')
}

/// The word `movestogo` starts at `i`, in either case.
pub open spec fn movestogo_at(s: Seq<char>, i: int) -> bool {
    &&& 0 <= i
    &&& i + 9 <= s.len()
    &&& ci_eq(s[i], 'm', 'M')
    &&& ci_eq(s[i + 1], 'o', 'O')
    &&& ci_eq(s[i + 2], 'v', 'V')
    &&& ci_eq(s[i + 3], 'e', 'E')
    &&& ci_eq(s[i + 4], 's', 'S')
    &&& ci_eq(s[i + 5], 't', 'T')
    &&& ci_eq(s[i + 6], 'o', 'O')
    &&& ci_eq(s[i + 7], 'g', 'G')
    &&& ci_eq(s[i + 8], 'o', 'O')
}

/// A field name whose numeral the delegated decoder narrows to one byte.
pub open spec fn narrow_field_at(s: Seq<char>, i: int) -> bool {
    depth_at(s, i) || seldepth_at(s, i) || mate_at(s, i) || movestogo_at(s, i)
}

/// The length of the field name starting at `i`. The four names differ in
/// their first two characters, so at most one matches.
pub open spec fn narrow_field_len(s: Seq<char>, i: int) -> int {
    if seldepth_at(s, i) {
        8
    } else if movestogo_at(s, i) {
        9
    } else if depth_at(s, i) {
        5
    } else {
        4
    }
}

/// Whether a field name at `i` stands where the delegated grammar could
/// read it: at the start, after a separator, or — the grammar glues the
/// time-control fields — right after a numeral.
pub open spec fn field_boundary(s: Seq<char>, i: int) -> bool {
    i == 0 || ws_char(s[i - 1]) || digit_char(s[i - 1])
}

/// A three-digit numeral whose value is 256 or more.
pub open spec fn big_digits3(a: char, b: char, c: char) -> bool {
    ||| a as u32 > '2' as u32
    ||| (a as u32 == '2' as u32 && b as u32 > '5' as u32)
    ||| (a as u32 == '2' as u32 && b as u32 == '5' as u32 && c as u32 > '5' as u32)
}

/// A narrow field name at `i`, followed by separators and then, at `p`, an
/// exactly-three-digit numeral of 256 or more: the shape on which the
/// delegated decoder's one-byte conversion aborts.
pub open spec fn overflow_at(s: Seq<char>, i: int, p: int) -> bool {
    &&& narrow_field_at(s, i)
    &&& field_boundary(s, i)
    &&& i + narrow_field_len(s, i) < p
    &&& forall|j: int| i + narrow_field_len(s, i) <= j < p ==> ws_char(s[j])
    &&& p + 3 <= s.len()
    &&& digit_char(s[p])
    &&& digit_char(s[p + 1])
    &&& digit_char(s[p + 2])
    &&& p + 3 == s.len() || !digit_char(s[p + 3])
    &&& big_digits3(s[p], s[p + 1], s[p + 2])
}

/// No numeral stands where the delegated decoder would narrow it to one
/// byte and abort: such a line can be handed to it safely.
pub open spec fn decoder_safe(s: Seq<char>) -> bool {
    forall|i: int, p: int| !overflow_at(s, i, p)
}

/// The sequence of canonical texts of a sequence of messages.
pub open spec fn msg_texts(ms: Seq<Msg>) -> Seq<Seq<char>> {
    ms.map_values(|m: Msg| m@)
}

fn ws_at(line: &str, i: usize) -> (b: bool)
    requires
        i < line@.len(),
    ensures
        b == ws_char(line@[i as int]),
{
    let c = line.get_char(i);
    c == ' ' || c == '\t' || c == '\r' || c == '\n'
}

fn digit_at(line: &str, i: usize) -> (b: bool)
    requires
        i < line@.len(),
    ensures
        b == digit_char(line@[i as int]),
{
    let c = line.get_char(i);
    let u = c as u32;
    '0' as u32 <= u && u <= '9' as u32
}

fn boundary_at(line: &str, i: usize) -> (b: bool)
    requires
        i <= line@.len(),
    ensures
        b == field_boundary(line@, i as int),
{
    if i == 0 {
        true
    } else {
        let c = line.get_char(i - 1);
        let u = c as u32;
        c == ' ' || c == '\t' || c == '\r' || c == '\n' || ('0' as u32 <= u && u <= '9' as u32)
    }
}

fn ci_at(line: &str, i: usize, lower: char, upper: char) -> (b: bool)
    requires
        i < line@.len(),
    ensures
        b == ci_eq(line@[i as int], lower, upper),
{
    let c = line.get_char(i);
    c == lower || c == upper
}

/// The length of the narrow field name starting at `i`, or zero when none
/// starts there.
fn field_len_at(line: &str, i: usize, n: usize) -> (k: usize)
    requires
        n == line@.len(),
        i < n,
    ensures
        k == 0 ==> !narrow_field_at(line@, i as int),
        k != 0 ==> narrow_field_at(line@, i as int) && k == narrow_field_len(line@, i as int) && i
            + k <= n,
{
    if n - i >= 8 && ci_at(line, i, 's', 'S') && ci_at(line, i + 1, 'e', 'E') && ci_at(
        line,
        i + 2,
        'l',
        'L',
    ) && ci_at(line, i + 3, 'd', 'D') && ci_at(line, i + 4, 'e', 'E') && ci_at(line, i + 5, 'p', 'P')
        && ci_at(line, i + 6, 't', 'T') && ci_at(line, i + 7, 'h', 'H') {
        return 8;
    }
    if n - i >= 9 && ci_at(line, i, 'm', 'M') && ci_at(line, i + 1, 'o', 'O') && ci_at(
        line,
        i + 2,
        'v',
        'V',
    ) && ci_at(line, i + 3, 'e', 'E') && ci_at(line, i + 4, 's', 'S') && ci_at(line, i + 5, 't', 'T')
        && ci_at(line, i + 6, 'o', 'O') && ci_at(line, i + 7, 'g', 'G') && ci_at(
        line,
        i + 8,
        'o',
        'O',
    ) {
        return 9;
    }
    if n - i >= 5 && ci_at(line, i, 'd', 'D') && ci_at(line, i + 1, 'e', 'E') && ci_at(
        line,
        i + 2,
        'p',
        'P',
    ) && ci_at(line, i + 3, 't', 'T') && ci_at(line, i + 4, 'h', 'H') {
        return 5;
    }
    if n - i >= 4 && ci_at(line, i, 'm', 'M') && ci_at(line, i + 1, 'a', 'A') && ci_at(
        line,
        i + 2,
        't',
        'T',
    ) && ci_at(line, i + 3, 'e', 'E') {
        return 4;
    }
    0
}

fn big3_at(line: &str, p: usize, n: usize) -> (b: bool)
    requires
        n == line@.len(),
        p + 3 <= n,
    ensures
        b == big_digits3(line@[p as int], line@[p as int + 1], line@[p as int + 2]),
{
    let a = line.get_char(p) as u32;
    let b0 = line.get_char(p + 1) as u32;
    let c = line.get_char(p + 2) as u32;
    a > '2' as u32 || (a == '2' as u32 && (b0 > '5' as u32 || (b0 == '5' as u32 && c > '5' as u32)))
}

/// Scans one line for the shape the delegated decoder aborts on: a narrow
/// field name followed by an exactly-three-digit numeral of 256 or more.
pub fn decoder_safe_line(line: &str) -> (b: bool)
    ensures
        b == decoder_safe(line@),
{
    let n = line.unicode_len();
    let mut i: usize = 0;
    while i < n
        invariant
            n == line@.len(),
            i <= n,
            forall|i0: int, p0: int| i0 < i as int ==> !overflow_at(line@, i0, p0),
        decreases n - i,
    {
        let ghost s = line@;
        if boundary_at(line, i) {
            let k = field_len_at(line, i, n);
            if k > 0 {
                let mut q = i + k;
                while q < n && ws_at(line, q)
                    invariant
                        n == line@.len(),
                        i + k <= q <= n,
                        forall|j: int| i + k <= j < q ==> ws_char(line@[j]),
                    decreases n - q,
                {
                    q = q + 1;
                }
                let risky = q > i + k && q < n && n - q >= 3 && digit_at(line, q) && digit_at(
                    line,
                    q + 1,
                ) && digit_at(line, q + 2) && (q + 3 == n || !digit_at(line, q + 3)) && big3_at(
                    line,
                    q,
                    n,
                );
                if risky {
                    proof {
                        assert(overflow_at(s, i as int, q as int));
                    }
                    return false;
                }
                proof {
                    assert forall|p0: int| !overflow_at(s, i as int, p0) by {
                        if overflow_at(s, i as int, p0) {
                            assert(p0 > i + k);
                            assert(p0 + 3 <= n);
                            assert(digit_char(s[p0]));
                            if p0 < q {
                                assert(ws_char(s[p0]));
                                assert(false);
                            } else if p0 > q {
                                assert(q < n);
                                assert(ws_char(s[q as int]));
                                assert(false);
                            } else {
                                assert(false);
                            }
                        }
                    }
                }
            }
        }
        i = i + 1;
    }
    proof {
        assert forall|i0: int, p0: int| !overflow_at(line@, i0, p0) by {
            if i0 >= n {
                assert(!narrow_field_at(line@, i0));
            }
        }
    }
    true
}

/// Relies on `vampirc_uci::parse_with_unknown`, which reads a list of
/// messages out of one line of text deterministically (an unrecognized line
/// becomes a single catch-all message, a blank line none), and on
/// `vampirc_uci::Serializable::serialize`, which renders each parsed message
/// as its canonical text; both depend on their argument alone. The decoder
/// converts its `depth`, `seldepth`, `mate` and `movestogo` numerals with a
/// one-byte width and aborts on wider values, so the `requires` leaves such
/// lines out.
#[verifier::external_body]
fn parse_line(line: &str) -> (ms: Vec<Msg>)
    requires
        decoder_safe(line@),
    ensures
        msg_texts(ms@) == line_msg_texts(line@),
{
    vampirc_uci::parse_with_unknown(line)
        .into_iter()
        .map(|m| Msg { text: m.serialize() })
        .collect()
}

/// What to do when one line decodes to more than one message: flatten the
/// list in order (lenient), or report a decode error (strict).
#[derive(Clone, Copy, PartialEq, Eq, Structural, Debug)]
pub enum DecodePolicy {
    Lenient,
    Strict,
}

/// The error view that a strict decode of `line` reports.
pub open spec fn ambiguity_view(line: Seq<char>) -> ErrView {
    ErrView {
        kind: ErrorKind::DecodeAmbiguity,
        direction: Direction::IntoCore,
        fatal: false,
        detail: line,
    }
}

/// Decodes one wire line under the given policy. A blank or comment line
/// yields the empty list and is never an error; more than one message per
/// line is flattened in order under the lenient policy and reported as a
/// decode error under the strict one. A line carrying a numeral too wide
/// for one of the delegated decoder's one-byte fields is never handed to
/// it — the decoder would abort on it — and passes through whole, as one
/// opaque message.
pub fn decode_line(line: &str, policy: DecodePolicy) -> (r: Result<Vec<Msg>, BridgeError>)
    ensures
        match r {
            Ok(ms) => {
                &&& decoder_safe(line@) ==> (policy == DecodePolicy::Lenient || line_msg_texts(
                    line@,
                ).len() <= 1) && msg_texts(ms@) == line_msg_texts(line@)
                &&& !decoder_safe(line@) ==> msg_texts(ms@) == seq![line@]
            },
            Err(e) => {
                &&& decoder_safe(line@)
                &&& policy == DecodePolicy::Strict
                &&& line_msg_texts(line@).len() > 1
                &&& e@ == ambiguity_view(line@)
            },
        },
{
    if !decoder_safe_line(line) {
        let mut ms: Vec<Msg> = Vec::new();
        ms.push(Msg::new(line.to_owned()));
        proof {
            assert(msg_texts(ms@) =~= seq![line@]);
        }
        return Ok(ms);
    }
    let ms = parse_line(line);
    if policy == DecodePolicy::Strict && ms.len() > 1 {
        assert(line_msg_texts(line@).len() == ms@.len());
        Err(BridgeError::decode_ambiguity(line))
    } else {
        assert(line_msg_texts(line@).len() == ms@.len());
        Ok(ms)
    }
}

/// The line terminator appended to every encoded message.
pub open spec fn line_end() -> Seq<char> {
    seq!['\n']
}

/// The full wire form of a message with canonical text `t`.
pub open spec fn encoded(t: Seq<char>) -> Seq<char> {
    t + line_end()
}

/// The per-line codec: encodes one message as one terminated line, and
/// decodes one line under the strict policy, as the delegated grammar reads
/// it.
pub struct UciCodec {}

impl UciCodec {
    pub fn new() -> (c: UciCodec) {
        UciCodec {}
    }

    /// Appends the canonical text of `m` and the line terminator to `dst`.
    pub fn encode(&self, m: &Msg, dst: &mut String)
        ensures
            final(dst)@ == old(dst)@ + encoded(m@),
    {
        dst.append(m.text().as_str());
        dst.append("\n");
        proof {
            reveal_strlit("\n");
            assert(final(dst)@ =~= old(dst)@ + encoded(m@));
        }
    }

    /// Decodes one line: none for a blank line, the single message when the
    /// grammar reads exactly one, and a decode error when it reads more. A
    /// line the delegated decoder would abort on passes through whole, as
    /// one opaque message.
    pub fn decode(&self, line: &str) -> (r: Result<Option<Msg>, BridgeError>)
        ensures
            match r {
                Ok(None) => decoder_safe(line@) && line_msg_texts(line@).len() == 0,
                Ok(Some(m)) => if decoder_safe(line@) {
                    line_msg_texts(line@).len() == 1 && m@ == line_msg_texts(line@)[0]
                } else {
                    m@ == line@
                },
                Err(e) => decoder_safe(line@) && line_msg_texts(line@).len() > 1 && e@
                    == ambiguity_view(line@),
            },
    {
        match decode_line(line, DecodePolicy::Strict) {
            Ok(mut ms) => {
                proof {
                    assert(msg_texts(ms@).len() == ms@.len());
                }
                if ms.len() == 0 {
                    Ok(None)
                } else {
                    proof {
                        assert(msg_texts(ms@)[0] == ms@[0]@);
                    }
                    let m = ms.remove(0);
                    Ok(Some(m))
                }
            },
            Err(e) => Err(e),
        }
    }
}

} // verus!
