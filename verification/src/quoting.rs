//! Command-line parameter quoting for the elevation launcher.
//!
//! An argument with no whitespace or quote characters is emitted
//! verbatim; any other argument (the empty string included) is wrapped in
//! quotes with internal backslashes and quotes escaped.  Arguments are
//! joined with single spaces.  An independent unquoting routine inverts
//! the quoting of a single argument.

use vstd::prelude::*;

verus! {

/// Whether an argument must be wrapped in quotes: it is empty or holds a
/// space, a tab or a quote character.
pub open spec fn needs_quoting(s: Seq<char>) -> bool {
    s.len() == 0 || exists|i: int|
        0 <= i < s.len() && (s[i] == ' ' || s[i] == '\t' || s[i] == '"')
}

/// The escaped form of one character inside a quoted argument.
pub open spec fn escaped_char(c: char) -> Seq<char> {
    if c == '\\' {
        seq!['\\', '\\']
    } else if c == '"' {
        seq!['\\', '"']
    } else {
        seq![c]
    }
}

/// The escaped form of an argument's characters.
pub open spec fn escape_chars(s: Seq<char>) -> Seq<char>
    decreases s.len(),
{
    if s.len() == 0 {
        Seq::empty()
    } else {
        escaped_char(s[0]) + escape_chars(s.skip(1))
    }
}

/// An argument wrapped in quotes with its interior escaped.
pub open spec fn spec_quote(s: Seq<char>) -> Seq<char> {
    seq!['"'] + escape_chars(s) + seq!['"']
}

/// The parameter emitted for one argument.
pub open spec fn spec_quoted_param(s: Seq<char>) -> Seq<char> {
    if needs_quoting(s) {
        spec_quote(s)
    } else {
        s
    }
}

/// Inverse of the interior escaping; `None` on an ill-formed escape or a
/// bare quote.
pub open spec fn spec_unescape(s: Seq<char>) -> Option<Seq<char>>
    decreases s.len(),
{
    if s.len() == 0 {
        Some(Seq::empty())
    } else if s[0] == '\\' {
        if s.len() >= 2 && (s[1] == '\\' || s[1] == '"') {
            match spec_unescape(s.skip(2)) {
                Some(t) => Some(seq![s[1]] + t),
                None => None,
            }
        } else {
            None
        }
    } else if s[0] == '"' {
        None
    } else {
        match spec_unescape(s.skip(1)) {
            Some(t) => Some(seq![s[0]] + t),
            None => None,
        }
    }
}

/// Independent unquoting of one emitted parameter: a quoted pair is
/// unescaped, anything else is taken verbatim.
pub open spec fn spec_unquote_param(p: Seq<char>) -> Option<Seq<char>> {
    if p.len() >= 2 && p[0] == '"' && p[p.len() - 1] == '"' {
        spec_unescape(p.subrange(1, p.len() - 1))
    } else {
        Some(p)
    }
}

proof fn lemma_unescape_escape(s: Seq<char>)
    ensures
        spec_unescape(escape_chars(s)) == Some(s),
    decreases s.len(),
{
    if s.len() == 0 {
    } else {
        let head = escaped_char(s[0]);
        let tail = escape_chars(s.skip(1));
        lemma_unescape_escape(s.skip(1));
        if s[0] == '\\' || s[0] == '"' {
            assert((head + tail).skip(2) =~= tail);
            assert(seq![s[0]] + s.skip(1) =~= s);
        } else {
            assert((head + tail).skip(1) =~= tail);
            assert(seq![s[0]] + s.skip(1) =~= s);
        }
    }
}

/// Quoting invariant: the unquoting routine parses every emitted
/// parameter back to the original argument, whatever spaces, quotes and
/// backslashes it held.
pub proof fn lemma_unquote_quoted_param(s: Seq<char>)
    ensures
        spec_unquote_param(spec_quoted_param(s)) == Some(s),
{
    if needs_quoting(s) {
        let p = spec_quote(s);
        assert(p.len() >= 2 && p[0] == '"' && p[p.len() - 1] == '"');
        assert(p.subrange(1, p.len() - 1) =~= escape_chars(s));
        lemma_unescape_escape(s);
    } else {
        let p = s;
        if p.len() >= 2 && p[0] == '"' && p[p.len() - 1] == '"' {
            assert(s[0] == '"');
            assert(needs_quoting(s));
        }
    }
}

/// The empty argument is emitted as an empty quoted pair.
pub proof fn lemma_empty_arg_quotes_to_empty_pair()
    ensures
        spec_quoted_param(Seq::<char>::empty()) == seq!['"', '"'],
{
    assert(spec_quoted_param(Seq::<char>::empty()) =~= seq!['"', '"']);
}

/// The parameter string for a list of arguments, joined with single
/// spaces.
pub open spec fn spec_params(args: Seq<Seq<char>>) -> Seq<char>
    decreases args.len(),
{
    if args.len() == 0 {
        Seq::empty()
    } else if args.len() == 1 {
        spec_quoted_param(args[0])
    } else {
        spec_params(args.take(args.len() - 1)) + seq![' '] + spec_quoted_param(
            args[args.len() - 1],
        )
    }
}

fn arg_needs_quoting(s: &str) -> (r: bool)
    ensures
        r == needs_quoting(s@),
{
    let n = s.unicode_len();
    if n == 0 {
        return true;
    }
    let mut i: usize = 0;
    while i < n
        invariant
            i <= n,
            n == s@.len(),
            forall|j: int| 0 <= j < i ==> !(s@[j] == ' ' || s@[j] == '\t' || s@[j] == '"'),
        decreases n - i,
    {
        let c = s.get_char(i);
        if c == ' ' || c == '\t' || c == '"' {
            return true;
        }
        i += 1;
    }
    false
}

proof fn lemma_escape_chars_snoc(s: Seq<char>, c: char)
    ensures
        escape_chars(s.push(c)) == escape_chars(s) + escaped_char(c),
    decreases s.len(),
{
    if s.len() == 0 {
        let p = s.push(c);
        assert(p.skip(1) =~= Seq::<char>::empty());
        assert(escape_chars(Seq::<char>::empty()) == Seq::<char>::empty());
        assert(escape_chars(p) == escaped_char(p[0]) + escape_chars(p.skip(1)));
        assert(p[0] == c);
        assert(escaped_char(c) + Seq::<char>::empty() =~= escaped_char(c));
        assert(s =~= Seq::<char>::empty());
        assert(Seq::<char>::empty() + escaped_char(c) =~= escaped_char(c));
    } else {
        assert(s.push(c).skip(1) =~= s.skip(1).push(c));
        lemma_escape_chars_snoc(s.skip(1), c);
        assert((escaped_char(s[0]) + escape_chars(s.skip(1))) + escaped_char(c) =~= escaped_char(
            s[0],
        ) + (escape_chars(s.skip(1)) + escaped_char(c)));
    }
}

/// Relies on std's `FromIterator` for `String`: collecting characters
/// yields the string of exactly those characters in order.
#[verifier::external_body]
fn chars_to_string(v: Vec<char>) -> (r: String)
    ensures
        r@ == v@,
{
    v.into_iter().collect()
}

fn push_escaped(out: &mut Vec<char>, s: &str)
    ensures
        final(out)@ == old(out)@ + escape_chars(s@),
{
    let n = s.unicode_len();
    let mut i: usize = 0;
    while i < n
        invariant
            i <= n,
            n == s@.len(),
            out@ == old(out)@ + escape_chars(s@.take(i as int)),
        decreases n - i,
    {
        let c = s.get_char(i);
        if c == '\\' {
            out.push('\\');
            out.push('\\');
        } else if c == '"' {
            out.push('\\');
            out.push('"');
        } else {
            out.push(c);
        }
        proof {
            assert(s@.take(i as int).push(s@[i as int]) =~= s@.take(i + 1));
            lemma_escape_chars_snoc(s@.take(i as int), s@[i as int]);
            assert(out@ =~= old(out)@ + (escape_chars(s@.take(i as int)) + escaped_char(
                s@[i as int],
            )));
        }
        i += 1;
    }
    proof {
        assert(s@.take(n as int) =~= s@);
    }
}

/// Wrap one argument in quotes, escaping its backslashes and quotes.
pub fn quote_param(s: &str) -> (r: String)
    ensures
        r@ == spec_quote(s@),
{
    let mut out: Vec<char> = Vec::new();
    out.push('"');
    proof {
        assert(out@ =~= seq!['"']);
    }
    push_escaped(&mut out, s);
    out.push('"');
    proof {
        assert(out@ =~= spec_quote(s@));
    }
    chars_to_string(out)
}

/// The parameter emitted for one argument: verbatim when harmless,
/// quoted otherwise.
pub fn quoted_param(s: &str) -> (r: String)
    ensures
        r@ == spec_quoted_param(s@),
{
    if arg_needs_quoting(s) {
        quote_param(s)
    } else {
        String::from_str(s)
    }
}

/// The single parameter string handed to the elevation request: each
/// argument quoted as needed, joined with single spaces.
pub fn params_string(args: &Vec<String>) -> (r: String)
    ensures
        r@ == spec_params(args@.map_values(|a: String| a@)),
{
    let ghost argv = args@.map_values(|a: String| a@);
    let mut out = String::new();
    let mut i: usize = 0;
    while i < args.len()
        invariant
            i <= args.len(),
            argv == args@.map_values(|a: String| a@),
            argv.len() == args@.len(),
            out@ == spec_params(argv.take(i as int)),
        decreases args.len() - i,
    {
        if i > 0 {
            out.append(" ");
            proof {
                reveal_strlit(" ");
                assert(" "@ =~= seq![' ']);
            }
        }
        let q = quoted_param(args[i].as_str());
        out.append(q.as_str());
        proof {
            let t = argv.take(i + 1);
            assert(t.take(t.len() - 1) =~= argv.take(i as int));
            assert(t[t.len() - 1] == argv[i as int]);
            if i == 0 {
                assert(out@ =~= spec_params(argv.take(1)));
            }
        }
        i += 1;
    }
    proof {
        assert(argv.take(argv.len() as int) =~= argv);
    }
    out
}

} // verus!
