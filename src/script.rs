use vstd::prelude::*;

verus! {

/// The greeting the control panel shows for `name`.
pub open spec fn greeting(name: Seq<char>) -> Seq<char> {
    "Hello, "@ + name + "! You've been greeted from Rust!"@
}

pub fn greet(name: &str) -> (r: String)
    ensures
        r@ == greeting(name@),
{
    String::from_str("Hello, ").concat(name).concat("! You've been greeted from Rust!")
}

/// How one character of an address is written inside a single-quoted
/// script string: a backslash, a single quote, a line feed and a carriage
/// return each get a backslash escape, anything else stands for itself.
pub open spec fn escape_char(c: char) -> Seq<char> {
    if c == '\\' {
        seq!['\\', '\\']
    } else if c == '\'' {
        seq!['\\', '\'']
    } else if c == '\n' {
        seq!['\\', 'n']
    } else if c == '\r' {
        seq!['\\', 'r']
    } else {
        seq![c]
    }
}

/// `s` written so that it can stand inside a single-quoted script string.
pub open spec fn escape_js(s: Seq<char>) -> Seq<char>
    decreases s.len(),
{
    if s.len() == 0 {
        Seq::empty()
    } else {
        escape_js(s.drop_last()) + escape_char(s.last())
    }
}

/// What the body of a single-quoted script string stands for, read from the
/// left: `None` where the text would end the string early or break it (a bare
/// quote or line break, or a backslash at the very end).
pub open spec fn read_js_string(t: Seq<char>) -> Option<Seq<char>>
    decreases t.len(),
{
    if t.len() == 0 {
        Some(Seq::empty())
    } else if t[0] == '\\' {
        if t.len() < 2 {
            None
        } else {
            let c = if t[1] == 'n' {
                '\n'
            } else if t[1] == 'r' {
                '\r'
            } else {
                t[1]
            };
            match read_js_string(t.subrange(2, t.len() as int)) {
                Some(rest) => Some(seq![c] + rest),
                None => None,
            }
        }
    } else if t[0] == '\'' || t[0] == '\n' || t[0] == '\r' {
        None
    } else {
        match read_js_string(t.subrange(1, t.len() as int)) {
            Some(rest) => Some(seq![t[0]] + rest),
            None => None,
        }
    }
}

proof fn lemma_escape_prepend(c: char, s: Seq<char>)
    ensures
        escape_js(seq![c] + s) == escape_char(c) + escape_js(s),
    decreases s.len(),
{
    if s.len() == 0 {
        let t = seq![c] + s;
        assert(t.drop_last() =~= Seq::<char>::empty());
        assert(t.last() == c);
        assert(escape_js(t.drop_last()) == Seq::<char>::empty());
        assert(escape_js(t) == escape_js(t.drop_last()) + escape_char(t.last()));
        assert(escape_js(s) == Seq::<char>::empty());
        assert(escape_js(t) =~= escape_char(c) + escape_js(s));
    } else {
        lemma_escape_prepend(c, s.drop_last());
        let t = seq![c] + s;
        assert(t.drop_last() =~= seq![c] + s.drop_last());
        assert(t.last() == s.last());
        assert(escape_js(t) == escape_js(t.drop_last()) + escape_char(t.last()));
        assert(escape_js(s) == escape_js(s.drop_last()) + escape_char(s.last()));
        assert(escape_js(t) =~= escape_char(c) + escape_js(s));
    }
}

/// The escaped address, read back as a script string, is the address itself:
/// nothing in it ends the string early.
pub proof fn lemma_escape_reads_back(s: Seq<char>)
    ensures
        read_js_string(escape_js(s)) == Some(s),
    decreases s.len(),
{
    if s.len() > 0 {
        let c = s[0];
        let rest = s.drop_first();
        assert(s =~= seq![c] + rest);
        lemma_escape_prepend(c, rest);
        lemma_escape_reads_back(rest);
        let t = escape_char(c) + escape_js(rest);
        let k = escape_char(c).len() as int;
        assert(t.subrange(k, t.len() as int) =~= escape_js(rest));
        assert(seq![c] + rest =~= s);
    }
}

/// The script that sends the content panel to `url`.
pub open spec fn location_script_of(url: Seq<char>) -> Seq<char> {
    "window.location.href = '"@ + escape_js(url) + "';"@
}

/// Builds the script that sends the content panel to `url`, with the address
/// escaped so that the script string reads back as exactly `url`.
pub fn location_script(url: &str) -> (r: String)
    ensures
        r@ == location_script_of(url@),
{
    let n = url.unicode_len();
    let mut out = String::from_str("window.location.href = '");
    let mut i: usize = 0;
    while i < n
        invariant
            n == url@.len(),
            i <= n,
            out@ == "window.location.href = '"@ + escape_js(url@.subrange(0, i as int)),
        decreases n - i,
    {
        let c = url.get_char(i);
        let ghost prefix = url@.subrange(0, i as int);
        let ghost next = url@.subrange(0, i + 1);
        assert(next.drop_last() =~= prefix);
        assert(next.last() == c);
        if c == '\\' {
            out.append("\\\\");
            proof {
                reveal_strlit("\\\\");
            }
            assert("\\\\"@ =~= seq!['\\', '\\']);
        } else if c == '\'' {
            out.append("\\'");
            proof {
                reveal_strlit("\\'");
            }
            assert("\\'"@ =~= seq!['\\', '\'']);
        } else if c == '\n' {
            out.append("\\n");
            proof {
                reveal_strlit("\\n");
            }
            assert("\\n"@ =~= seq!['\\', 'n']);
        } else if c == '\r' {
            out.append("\\r");
            proof {
                reveal_strlit("\\r");
            }
            assert("\\r"@ =~= seq!['\\', 'r']);
        } else {
            out.append(url.substring_char(i, i + 1));
            assert(url@.subrange(i as int, i + 1) =~= seq![c]);
        }
        i = i + 1;
        assert(out@ =~= "window.location.href = '"@ + escape_js(url@.subrange(0, i as int)));
    }
    assert(url@.subrange(0, n as int) =~= url@);
    out.append("';");
    out
}

} // verus!
