//! Stack frames, stack traces and their textual form.
//!
//! A frame is written as `path:line - name`. Neither `;` nor a space is
//! escaped: a frame whose name or path holds one of them yields a folded key
//! that a reader of the report cannot split again. This is a known limit of
//! the collapsed-stack format, and callers have to live with it.
use vstd::prelude::*;
use vstd::string::StringExecFns;

verus! {

/// One entry of a call stack.
#[derive(Clone, Debug)]
pub struct StackFrame {
    /// The name the function is shown under.
    pub name: String,
    /// The source file, relative to the project.
    pub relative_path: String,
    /// The source file as an absolute path, where it is known.
    pub absolute_path: Option<String>,
    /// The line in the source file.
    pub lineno: usize,
}

/// One sampled call stack, innermost frame first.
#[derive(Clone, Debug)]
pub struct StackTrace {
    /// The frames, from the innermost callee out to the outermost caller.
    pub trace: Vec<StackFrame>,
}

/// A frame as the sampler hands it over: the line number may be missing.
#[derive(Clone, Debug)]
pub struct SampledFrame {
    pub name: String,
    pub relative_path: String,
    pub absolute_path: Option<String>,
    pub lineno: Option<usize>,
}

/// The decimal digit for `d`.
pub open spec fn digit_char(d: nat) -> char
    recommends
        d < 10,
{
    seq!['0', '1', '2', '3', '4', '5', '6', '7', '8', '9'][d as int]
}

/// The decimal numeral of `n`, without leading zeros.
pub open spec fn decimal(n: nat) -> Seq<char>
    decreases n,
{
    if n < 10 {
        seq![digit_char(n)]
    } else {
        decimal(n / 10).push(digit_char(n % 10))
    }
}

/// The token a frame is written as: `path:line - name`.
pub open spec fn frame_text(frame: StackFrame) -> Seq<char> {
    frame.relative_path@ + seq![':'] + decimal(frame.lineno as nat) + seq![' ', '-', ' ']
        + frame.name@
}

/// The tokens joined by `;`.
pub open spec fn join_tokens(tokens: Seq<Seq<char>>) -> Seq<char>
    decreases tokens.len(),
{
    if tokens.len() == 0 {
        Seq::<char>::empty()
    } else if tokens.len() == 1 {
        tokens[0]
    } else {
        join_tokens(tokens.drop_last()) + seq![';'] + tokens.last()
    }
}

/// The folded key of a trace: its frames in reverse, that is from the
/// outermost caller to the innermost callee, each as its token, joined by
/// `;`.
pub open spec fn folded_key_of(trace: Seq<StackFrame>) -> Seq<char> {
    join_tokens(trace.reverse().map_values(|f: StackFrame| frame_text(f)))
}

/// The line number a sampled frame is given: its own, or 0 where the
/// sampler knows none.
pub open spec fn line_or_zero(lineno: Option<usize>) -> usize {
    match lineno {
        Some(n) => n,
        None => 0,
    }
}

/// The frame that a sampled frame stands for.
pub open spec fn frame_of_sampled(sampled: SampledFrame) -> StackFrame {
    StackFrame {
        name: sampled.name,
        relative_path: sampled.relative_path,
        absolute_path: sampled.absolute_path,
        lineno: line_or_zero(sampled.lineno),
    }
}

/// The frames that a sequence of sampled frames stands for, in the same
/// order.
pub open spec fn frames_of_sampled(sampled: Seq<SampledFrame>) -> Seq<StackFrame> {
    sampled.map_values(|s: SampledFrame| frame_of_sampled(s))
}

/// Joining with one more token in front puts that token and a `;` before
/// the rest.
pub proof fn lemma_join_tokens_front(first: Seq<char>, rest: Seq<Seq<char>>)
    requires
        rest.len() > 0,
    ensures
        join_tokens(seq![first] + rest) == first + seq![';'] + join_tokens(rest),
    decreases rest.len(),
{
    let all = seq![first] + rest;
    assert(all.drop_last() =~= seq![first] + rest.drop_last());
    assert(all.last() == rest.last());
    if rest.len() == 1 {
        assert(all.drop_last() =~= seq![first]);
        assert(join_tokens(all.drop_last()) == first);
        assert(join_tokens(rest) == rest.last());
    } else {
        lemma_join_tokens_front(first, rest.drop_last());
        assert(join_tokens(all) =~= first + seq![';'] + join_tokens(rest));
    }
}

/// The folded key runs against the order of the trace: a frame that is put
/// in front of a trace, as its new innermost callee, has its token at the
/// end of the key.
pub proof fn lemma_folded_key_inner(inner: StackFrame, trace: Seq<StackFrame>)
    ensures
        folded_key_of(seq![inner] + trace) == if trace.len() == 0 {
            frame_text(inner)
        } else {
            folded_key_of(trace) + seq![';'] + frame_text(inner)
        },
{
    let all = seq![inner] + trace;
    let tokens = all.reverse().map_values(|f: StackFrame| frame_text(f));
    let rest = trace.reverse().map_values(|f: StackFrame| frame_text(f));
    assert(tokens.drop_last() =~= rest);
    assert(tokens.last() == frame_text(inner));
}

/// The folded key runs against the order of the trace: a frame that is put
/// behind a trace, as its new outermost caller, has its token at the front
/// of the key.
pub proof fn lemma_folded_key_outer(trace: Seq<StackFrame>, outer: StackFrame)
    ensures
        folded_key_of(trace.push(outer)) == if trace.len() == 0 {
            frame_text(outer)
        } else {
            frame_text(outer) + seq![';'] + folded_key_of(trace)
        },
{
    let tokens = trace.push(outer).reverse().map_values(|f: StackFrame| frame_text(f));
    let rest = trace.reverse().map_values(|f: StackFrame| frame_text(f));
    assert(tokens =~= seq![frame_text(outer)] + rest);
    if trace.len() == 0 {
        assert(tokens =~= seq![frame_text(outer)]);
    } else {
        lemma_join_tokens_front(frame_text(outer), rest);
    }
}

fn digit_str(d: usize) -> (s: &'static str)
    requires
        d < 10,
    ensures
        s@ == seq![digit_char(d as nat)],
{
    proof {
        reveal_strlit("0");
        reveal_strlit("1");
        reveal_strlit("2");
        reveal_strlit("3");
        reveal_strlit("4");
        reveal_strlit("5");
        reveal_strlit("6");
        reveal_strlit("7");
        reveal_strlit("8");
        reveal_strlit("9");
    }
    let s = if d == 0 {
        "0"
    } else if d == 1 {
        "1"
    } else if d == 2 {
        "2"
    } else if d == 3 {
        "3"
    } else if d == 4 {
        "4"
    } else if d == 5 {
        "5"
    } else if d == 6 {
        "6"
    } else if d == 7 {
        "7"
    } else if d == 8 {
        "8"
    } else {
        "9"
    };
    assert(s@ =~= seq![digit_char(d as nat)]);
    s
}

/// Appends the decimal numeral of `n` to `out`.
pub fn push_decimal(out: &mut String, n: usize)
    ensures
        final(out)@ == old(out)@ + decimal(n as nat),
    decreases n,
{
    if n >= 10 {
        push_decimal(out, n / 10);
    }
    out.append(digit_str(n % 10));
    assert(out@ =~= old(out)@ + decimal(n as nat));
}

/// Renders one frame as its token.
pub struct StackFrameFormatter<'a>(pub &'a StackFrame);

impl<'a> StackFrameFormatter<'a> {
    /// The token of the frame: `path:line - name`.
    pub fn to_string(&self) -> (s: String)
        ensures
            s@ == frame_text(*self.0),
    {
        proof {
            reveal_strlit(":");
            reveal_strlit(" - ");
        }
        let frame = self.0;
        let mut s = String::new();
        s.append(frame.relative_path.as_str());
        s.append(":");
        push_decimal(&mut s, frame.lineno);
        s.append(" - ");
        s.append(frame.name.as_str());
        assert(s@ =~= frame_text(*frame));
        s
    }
}

impl StackFrame {
    /// The frame that a sampled frame stands for: the same name and paths,
    /// and line 0 where the sampler gave no line.
    pub fn from_sampled(sampled: SampledFrame) -> (frame: StackFrame)
        ensures
            frame == frame_of_sampled(sampled),
    {
        let lineno = match sampled.lineno {
            Some(n) => n,
            None => 0,
        };
        StackFrame {
            name: sampled.name,
            relative_path: sampled.relative_path,
            absolute_path: sampled.absolute_path,
            lineno,
        }
    }
}

impl StackTrace {
    /// The trace that a sequence of sampled frames stands for.
    pub fn from_sampled(sampled: Vec<SampledFrame>) -> (trace: StackTrace)
        ensures
            trace.trace@ == frames_of_sampled(sampled@),
    {
        let ghost all = sampled@;
        let mut frames: Vec<StackFrame> = Vec::new();
        for s in it: sampled
            invariant
                it.seq() == all,
                frames@.len() == it.index(),
                forall|j: int|
                    0 <= j < frames@.len() ==> frames@[j] == frame_of_sampled(#[trigger] all[j]),
        {
            frames.push(StackFrame::from_sampled(s));
        }
        assert(frames@ =~= frames_of_sampled(all));
        StackTrace { trace: frames }
    }

    /// The folded key of this trace: its tokens from the outermost caller to
    /// the innermost callee, joined by `;`. A trace without frames has the
    /// empty key.
    pub fn folded_key(&self) -> (key: String)
        ensures
            key@ == folded_key_of(self.trace@),
    {
        let ghost tokens = self.trace@.reverse().map_values(|f: StackFrame| frame_text(f));
        let n = self.trace.len();
        let mut key = String::new();
        let mut i = n;
        while i > 0
            invariant
                i <= n,
                n == self.trace@.len(),
                tokens == self.trace@.reverse().map_values(|f: StackFrame| frame_text(f)),
                key@ == join_tokens(tokens.subrange(0, n - i)),
            decreases i,
        {
            i -= 1;
            if i + 1 < n {
                key.append(";");
            }
            let token = StackFrameFormatter(&self.trace[i]).to_string();
            key.append(token.as_str());
            proof {
                reveal_strlit(";");
                let done = tokens.subrange(0, n - i);
                assert(done.drop_last() =~= tokens.subrange(0, n - i - 1));
                assert(done.last() == frame_text(self.trace@[i as int]));
                assert(key@ =~= join_tokens(done));
            }
        }
        assert(tokens.subrange(0, n as int) =~= tokens);
        key
    }
}

} // verus!
