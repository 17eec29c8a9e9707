//! Splitting a message into colored spans along ANSI color codes.
//!
//! A message may embed ANSI-style color escape sequences (`ESC [ code m`);
//! the core neither strips nor validates them, so a viewer that wants
//! color renders them itself. This parser walks the characters once:
//! plain characters accumulate into the current span; an escape sequence
//! ends the current span and switches the color for the next one. An
//! unknown code leaves the color as it was; an `ESC` not followed by `[`
//! is dropped together with the character after it; a sequence the
//! message ends inside still ends the current span.
//!
//! The meaning is fixed by a one-character-at-a-time machine
//! ([`step`] folded over the input by [`machine`]), and [`parse_ansi`] is
//! proved to compute exactly [`parse_ansi_spec`].

use vstd::prelude::*;
use vstd::string::StrSliceExecFns;

verus! {

/// The colors a span can carry.
#[derive(Clone, Copy, PartialEq, Eq, Structural, Debug)]
pub enum TextColor {
    Default,
    Red,
    Green,
    Yellow,
    Blue,
    Magenta,
    Cyan,
    White,
    Gray,
}

/// A run of characters sharing one color.
#[derive(Debug)]
pub struct StyledSpan {
    pub text: Vec<char>,
    pub color: TextColor,
}

/// The mathematical value of a span.
pub ghost struct SpanModel {
    pub text: Seq<char>,
    pub color: TextColor,
}

impl StyledSpan {
    pub open spec fn model(&self) -> SpanModel {
        SpanModel { text: self.text@, color: self.color }
    }
}

/// Where the machine stands inside the character stream.
pub ghost enum ParseMode {
    /// Reading plain text.
    Plain,
    /// Just read `ESC`; deciding whether a sequence starts.
    SawEscape,
    /// Inside `ESC [`, collecting the code up to the closing `m`.
    InCode(Seq<char>),
}

/// The machine's full state: mode, current color, the span being built,
/// and the spans already emitted.
pub ghost struct PState {
    pub mode: ParseMode,
    pub color: TextColor,
    pub buf: Seq<char>,
    pub acc: Seq<SpanModel>,
}

pub open spec fn init_state() -> PState {
    PState { mode: ParseMode::Plain, color: TextColor::Default, buf: Seq::empty(), acc: Seq::empty() }
}

/// End the span being built: a non-empty buffer becomes one span of the
/// current color; an empty one emits nothing.
pub open spec fn flush(acc: Seq<SpanModel>, buf: Seq<char>, color: TextColor) -> Seq<SpanModel> {
    if buf.len() > 0 {
        acc.push(SpanModel { text: buf, color })
    } else {
        acc
    }
}

/// The color selected by one collected code; an unrecognized code keeps
/// the current color.
pub open spec fn color_of_code(code: Seq<char>, cur: TextColor) -> TextColor {
    if code == seq!['3', '1'] {
        TextColor::Red
    } else if code == seq!['3', '2'] {
        TextColor::Green
    } else if code == seq!['3', '3'] {
        TextColor::Yellow
    } else if code == seq!['3', '4'] {
        TextColor::Blue
    } else if code == seq!['3', '5'] {
        TextColor::Magenta
    } else if code == seq!['3', '6'] {
        TextColor::Cyan
    } else if code == seq!['3', '7'] {
        TextColor::White
    } else if code == seq!['3', '9'] {
        TextColor::Default
    } else if code == seq!['9', '0'] {
        TextColor::Gray
    } else {
        cur
    }
}

/// One character moves the machine one step.
pub open spec fn step(st: PState, c: char) -> PState {
    match st.mode {
        ParseMode::Plain => if c == '\u{1b}' {
            PState { mode: ParseMode::SawEscape, color: st.color, buf: st.buf, acc: st.acc }
        } else {
            PState { mode: ParseMode::Plain, color: st.color, buf: st.buf.push(c), acc: st.acc }
        },
        ParseMode::SawEscape => if c == '[' {
            PState { mode: ParseMode::InCode(Seq::empty()), color: st.color, buf: st.buf, acc: st.acc }
        } else {
            PState { mode: ParseMode::Plain, color: st.color, buf: st.buf, acc: st.acc }
        },
        ParseMode::InCode(code) => if c == 'm' {
            PState {
                mode: ParseMode::Plain,
                color: color_of_code(code, st.color),
                buf: Seq::empty(),
                acc: flush(st.acc, st.buf, st.color),
            }
        } else {
            PState { mode: ParseMode::InCode(code.push(c)), color: st.color, buf: st.buf, acc: st.acc }
        },
    }
}

/// The machine's state after the first `i` characters of `s`.
pub open spec fn machine(s: Seq<char>, i: int) -> PState
    decreases i,
{
    if i <= 0 {
        init_state()
    } else {
        step(machine(s, i - 1), s[i - 1])
    }
}

/// At the end of the input the span still being built is ended, whatever
/// mode the machine stands in.
pub open spec fn finish(st: PState) -> Seq<SpanModel> {
    flush(st.acc, st.buf, st.color)
}

/// The spans of `s`: run the machine over all of `s`, then finish.
pub open spec fn parse_ansi_spec(s: Seq<char>) -> Seq<SpanModel> {
    finish(machine(s, s.len() as int))
}

enum ExecMode {
    Plain,
    SawEscape,
    InCode,
}

fn color_from_code(code: &Vec<char>, cur: TextColor) -> (c: TextColor)
    ensures
        c == color_of_code(code@, cur),
{
    if code.len() == 2 {
        let a = code[0];
        let b = code[1];
        if a == '3' && b == '1' {
            proof {
                assert(code@ =~= seq!['3', '1']);
            }
            TextColor::Red
        } else if a == '3' && b == '2' {
            proof {
                assert(code@ =~= seq!['3', '2']);
            }
            TextColor::Green
        } else if a == '3' && b == '3' {
            proof {
                assert(code@ =~= seq!['3', '3']);
            }
            TextColor::Yellow
        } else if a == '3' && b == '4' {
            proof {
                assert(code@ =~= seq!['3', '4']);
            }
            TextColor::Blue
        } else if a == '3' && b == '5' {
            proof {
                assert(code@ =~= seq!['3', '5']);
            }
            TextColor::Magenta
        } else if a == '3' && b == '6' {
            proof {
                assert(code@ =~= seq!['3', '6']);
            }
            TextColor::Cyan
        } else if a == '3' && b == '7' {
            proof {
                assert(code@ =~= seq!['3', '7']);
            }
            TextColor::White
        } else if a == '3' && b == '9' {
            proof {
                assert(code@ =~= seq!['3', '9']);
            }
            TextColor::Default
        } else if a == '9' && b == '0' {
            proof {
                assert(code@ =~= seq!['9', '0']);
            }
            TextColor::Gray
        } else {
            cur
        }
    } else {
        cur
    }
}

/// Parse one message into its colored spans. Computes exactly
/// [`parse_ansi_spec`] of the input.
pub fn parse_ansi(input: &str) -> (spans: Vec<StyledSpan>)
    ensures
        spans@.map_values(|sp: StyledSpan| sp.model()) == parse_ansi_spec(input@),
{
    let len = input.unicode_len();
    let mut mode = ExecMode::Plain;
    let mut code: Vec<char> = Vec::new();
    let mut color = TextColor::Default;
    let mut buf: Vec<char> = Vec::new();
    let mut acc: Vec<StyledSpan> = Vec::new();
    let mut i: usize = 0;
    while i < len
        invariant
            i <= len,
            len == input@.len(),
            ({
                let st = machine(input@, i as int);
                &&& st.color == color
                &&& st.buf == buf@
                &&& st.acc == acc@.map_values(|sp: StyledSpan| sp.model())
                &&& match mode {
                    ExecMode::Plain => st.mode is Plain,
                    ExecMode::SawEscape => st.mode is SawEscape,
                    ExecMode::InCode => st.mode matches ParseMode::InCode(cd) && cd == code@,
                }
            }),
        decreases len - i,
    {
        let ghost st = machine(input@, i as int);
        let c = input.get_char(i);
        match mode {
            ExecMode::Plain => {
                if c == '\u{1b}' {
                    mode = ExecMode::SawEscape;
                } else {
                    buf.push(c);
                }
            },
            ExecMode::SawEscape => {
                if c == '[' {
                    mode = ExecMode::InCode;
                    code = Vec::new();
                } else {
                    mode = ExecMode::Plain;
                }
            },
            ExecMode::InCode => {
                if c == 'm' {
                    if buf.len() > 0 {
                        let mut text: Vec<char> = Vec::new();
                        core::mem::swap(&mut text, &mut buf);
                        acc.push(StyledSpan { text, color });
                    }
                    color = color_from_code(&code, color);
                    mode = ExecMode::Plain;
                    code = Vec::new();
                } else {
                    code.push(c);
                }
            },
        }
        i += 1;
        proof {
            let st1 = machine(input@, i as int);
            assert(st1 == step(st, input@[i - 1]));
            assert(st1.acc =~= acc@.map_values(|sp: StyledSpan| sp.model()));
        }
    }
    if buf.len() > 0 {
        acc.push(StyledSpan { text: buf, color });
    }
    proof {
        assert(acc@.map_values(|sp: StyledSpan| sp.model()) =~= parse_ansi_spec(input@));
    }
    acc
}

/// A message without any escape character is one single span of the
/// default color, holding the message unchanged.
pub proof fn lemma_plain_text(s: Seq<char>)
    requires
        s.len() > 0,
        forall|k: int| 0 <= k < s.len() ==> s[k] != '\u{1b}',
    ensures
        parse_ansi_spec(s) == seq![SpanModel { text: s, color: TextColor::Default }],
{
    lemma_plain_prefix(s, s.len() as int);
    assert(machine(s, s.len() as int).buf =~= s);
    assert(parse_ansi_spec(s) =~= seq![SpanModel { text: s, color: TextColor::Default }]);
}

proof fn lemma_plain_prefix(s: Seq<char>, i: int)
    requires
        0 <= i <= s.len(),
        forall|k: int| 0 <= k < s.len() ==> s[k] != '\u{1b}',
    ensures
        machine(s, i).mode is Plain,
        machine(s, i).color == TextColor::Default,
        machine(s, i).buf == s.take(i),
        machine(s, i).acc == Seq::<SpanModel>::empty(),
    decreases i,
{
    if i == 0 {
        assert(s.take(0) =~= Seq::<char>::empty());
    } else {
        lemma_plain_prefix(s, i - 1);
        assert(machine(s, i) == step(machine(s, i - 1), s[i - 1]));
        assert(s.take(i - 1).push(s[i - 1]) =~= s.take(i));
    }
}

} // verus!
