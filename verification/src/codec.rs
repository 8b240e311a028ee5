//! The persisted form of the conversational context.
//!
//! The context is stored as plain text, one entry per line, in order, each
//! line closed by a newline; a dump fully replaces the previous file
//! contents. `encode_lines` and `decode_lines` are the mathematical statement
//! of that format; `serialize_context` and `parse_context` are the executable
//! sides, and `lemma_round_trip` shows that reading back a persisted context
//! yields the same entries in the same order.

use vstd::prelude::*;
use vstd::string::StrSliceExecFns;
use vstd::string::StringExecFns;

verus! {

/// The views of a sequence of strings.
pub open spec fn string_views(s: Seq<String>) -> Seq<Seq<char>> {
    s.map_values(|x: String| x@)
}

/// True when the line holds no newline character.
pub open spec fn newline_free(line: Seq<char>) -> bool {
    forall|k: int| 0 <= k < line.len() ==> line[k] != '\n'
}

/// The persisted text of a context: each entry, in order, followed by one
/// newline.
pub open spec fn encode_lines(lines: Seq<Seq<char>>) -> Seq<char>
    decreases lines.len(),
{
    if lines.len() == 0 {
        Seq::empty()
    } else {
        lines[0] + seq!['\n'] + encode_lines(lines.drop_first())
    }
}

/// The entries read back from persisted text: the newline-separated pieces,
/// where a trailing newline closes the last entry rather than opening an
/// empty one.
pub open spec fn decode_lines(s: Seq<char>) -> Seq<Seq<char>>
    decreases s.len(),
{
    if s.len() == 0 {
        Seq::empty()
    } else if s[0] == '\n' {
        seq![Seq::<char>::empty()] + decode_lines(s.drop_first())
    } else {
        let d = decode_lines(s.drop_first());
        if d.len() == 0 {
            seq![seq![s[0]]]
        } else {
            seq![seq![s[0]] + d[0]] + d.drop_first()
        }
    }
}

proof fn lemma_encode_push(lines: Seq<Seq<char>>, x: Seq<char>)
    ensures
        encode_lines(lines.push(x)) == encode_lines(lines) + x + seq!['\n'],
    decreases lines.len(),
{
    if lines.len() == 0 {
        assert(lines.push(x)[0] == x);
        assert(lines.push(x).drop_first() =~= Seq::<Seq<char>>::empty());
        assert(encode_lines(Seq::<Seq<char>>::empty()) == Seq::<char>::empty());
        assert(encode_lines(lines.push(x)) =~= encode_lines(lines) + x + seq!['\n']);
    } else {
        assert(lines.push(x).drop_first() =~= lines.drop_first().push(x));
        lemma_encode_push(lines.drop_first(), x);
        assert(encode_lines(lines.push(x)) =~= encode_lines(lines) + x + seq!['\n']);
    }
}

/// Decoding text that starts with one whole newline-free line peels exactly
/// that line off.
proof fn lemma_decode_prepend_line(line: Seq<char>, rest: Seq<char>)
    requires
        newline_free(line),
    ensures
        decode_lines(line + seq!['\n'] + rest) == seq![line] + decode_lines(rest),
    decreases line.len(),
{
    let s = line + seq!['\n'] + rest;
    if line.len() == 0 {
        assert(line =~= Seq::<char>::empty());
        assert(s[0] == '\n');
        assert(s.drop_first() =~= rest);
        assert(decode_lines(s) == seq![Seq::<char>::empty()] + decode_lines(rest));
        assert(decode_lines(s) =~= seq![line] + decode_lines(rest));
    } else {
        assert(s[0] == line[0]);
        assert(s[0] != '\n');
        assert(s.drop_first() =~= line.drop_first() + seq!['\n'] + rest);
        assert(newline_free(line.drop_first()));
        lemma_decode_prepend_line(line.drop_first(), rest);
        let d = decode_lines(s.drop_first());
        assert(d == seq![line.drop_first()] + decode_lines(rest));
        assert(d.len() >= 1);
        assert(d[0] == line.drop_first());
        assert(seq![s[0]] + d[0] =~= line);
        assert(d.drop_first() =~= decode_lines(rest));
        assert(decode_lines(s) =~= seq![line] + decode_lines(rest));
    }
}

/// A nonempty newline-free text decodes to the single entry it spells.
proof fn lemma_decode_no_newline(s: Seq<char>)
    requires
        s.len() > 0,
        newline_free(s),
    ensures
        decode_lines(s) == seq![s],
    decreases s.len(),
{
    if s.len() == 1 {
        assert(s.drop_first() =~= Seq::<char>::empty());
        assert(decode_lines(Seq::<char>::empty()) == Seq::<Seq<char>>::empty());
        assert(decode_lines(s) == seq![seq![s[0]]]);
        assert(seq![s[0]] =~= s);
        assert(decode_lines(s) =~= seq![s]);
    } else {
        assert(newline_free(s.drop_first()));
        lemma_decode_no_newline(s.drop_first());
        let d = decode_lines(s.drop_first());
        assert(d == seq![s.drop_first()]);
        assert(d[0] == s.drop_first());
        assert(d.drop_first() =~= Seq::<Seq<char>>::empty());
        assert(seq![s[0]] + d[0] =~= s);
        assert(decode_lines(s) == seq![seq![s[0]] + d[0]] + d.drop_first());
        assert(decode_lines(s) =~= seq![s]);
    }
}

/// Reading back a persisted context yields the same entries in the same
/// order, for every context whose entries hold no newline character.
pub proof fn lemma_round_trip(lines: Seq<Seq<char>>)
    requires
        forall|i: int| 0 <= i < lines.len() ==> #[trigger] newline_free(lines[i]),
    ensures
        decode_lines(encode_lines(lines)) == lines,
    decreases lines.len(),
{
    if lines.len() == 0 {
        assert(decode_lines(encode_lines(lines)) =~= lines);
    } else {
        assert(newline_free(lines[0]));
        lemma_decode_prepend_line(lines[0], encode_lines(lines.drop_first()));
        lemma_round_trip(lines.drop_first());
        assert(decode_lines(encode_lines(lines)) =~= lines);
    }
}

/// Writes the context in its persisted form: one entry per line, in order.
pub fn serialize_context(context: &Vec<String>) -> (out: String)
    ensures
        out@ == encode_lines(string_views(context@)),
{
    let mut out = String::new();
    proof {
        reveal_strlit("\n");
        assert(string_views(context@.take(0)) =~= Seq::<Seq<char>>::empty());
        assert(out@ =~= encode_lines(string_views(context@.take(0))));
    }
    let mut i: usize = 0;
    while i < context.len()
        invariant
            i <= context.len(),
            out@ == encode_lines(string_views(context@.take(i as int))),
        decreases context.len() - i,
    {
        out.append(context[i].as_str());
        out.append("\n");
        proof {
            reveal_strlit("\n");
            lemma_encode_push(string_views(context@.take(i as int)), context@[i as int]@);
            assert(string_views(context@.take(i as int + 1)) =~= string_views(
                context@.take(i as int),
            ).push(context@[i as int]@));
            assert(out@ =~= encode_lines(string_views(context@.take(i as int + 1))));
        }
        i = i + 1;
    }
    proof {
        assert(context@.take(context@.len() as int) =~= context@);
    }
    out
}

/// Reads a persisted context back: the newline-separated entries, in order.
pub fn parse_context(s: &str) -> (entries: Vec<String>)
    ensures
        string_views(entries@) == decode_lines(s@),
{
    let len = s.unicode_len();
    let mut entries: Vec<String> = Vec::new();
    let mut start: usize = 0;
    let mut i: usize = 0;
    proof {
        assert(s@.skip(0) =~= s@);
        assert(string_views(entries@) + decode_lines(s@.skip(0)) =~= decode_lines(s@));
    }
    while i < len
        invariant
            start <= i <= len,
            len == s@.len(),
            forall|k: int| start <= k < i ==> s@[k] != '\n',
            decode_lines(s@) == string_views(entries@) + decode_lines(s@.skip(start as int)),
        decreases len - i,
    {
        let c = s.get_char(i);
        if c == '\n' {
            let line = s.substring_char(start, i).to_owned();
            proof {
                assert(newline_free(line@));
                assert(s@.skip(start as int) =~= line@ + seq!['\n'] + s@.skip(i as int + 1));
                lemma_decode_prepend_line(line@, s@.skip(i as int + 1));
                assert(string_views(entries@.push(line)) =~= string_views(entries@).push(line@));
                assert(string_views(entries@.push(line)) + decode_lines(s@.skip(i as int + 1))
                    =~= string_views(entries@) + decode_lines(s@.skip(start as int)));
            }
            entries.push(line);
            start = i + 1;
        }
        i = i + 1;
    }
    if start < len {
        let line = s.substring_char(start, len).to_owned();
        proof {
            assert(line@ =~= s@.skip(start as int));
            assert(newline_free(line@));
            lemma_decode_no_newline(line@);
            assert(string_views(entries@.push(line)) =~= string_views(entries@).push(line@));
            assert(string_views(entries@.push(line)) =~= string_views(entries@) + decode_lines(
                s@.skip(start as int),
            ));
        }
        entries.push(line);
    } else {
        proof {
            assert(s@.skip(start as int) =~= Seq::<char>::empty());
            assert(string_views(entries@) =~= string_views(entries@) + decode_lines(
                s@.skip(start as int),
            ));
        }
    }
    entries
}

} // verus!
