//! Reading the host's listing of running server sessions.
use vstd::prelude::*;
use vstd::string::*;
use crate::platform::{Platform, session_name, session_name_spec};
use crate::text::{
    chars_of, contains, find_char, find_seq, second_piece, split_on, slice_chars, trim, trim_bounds,
};

verus! {

/// The session named on one line of the multiplexer's listing: on a line
/// that mentions the server's session name, the second `.`-separated piece,
/// trimmed.
pub open spec fn session_on_line(line: Seq<char>) -> Option<Seq<char>> {
    if contains(line, session_name_spec()) {
        match second_piece(line, '.') {
            Some(p) => Some(trim(p)),
            None => None,
        }
    } else {
        None
    }
}

/// The sessions named on `lines`, in order.
pub open spec fn sessions_on_lines(lines: Seq<Seq<char>>) -> Seq<Seq<char>>
    decreases lines.len(),
{
    if lines.len() == 0 {
        Seq::empty()
    } else {
        let r = sessions_on_lines(lines.drop_last());
        match session_on_line(lines.last()) {
            Some(x) => r.push(x),
            None => r,
        }
    }
}

/// The sessions that a host listing shows. The multiplexer lists one session
/// per line; the process table of the handle-based platform yields at most
/// one synthetic descriptor, when the executable appears in it.
pub open spec fn listed_sessions(p: Platform, listing: Seq<char>) -> Seq<Seq<char>> {
    match p {
        Platform::Session => sessions_on_lines(split_on(listing, '\n')),
        Platform::Handle => if contains(listing, "bedrock_server.exe"@) {
            seq!["bedrock_server"@]
        } else {
            Seq::empty()
        },
    }
}

/// A listing in which no line names a server session yields no sessions.
pub proof fn lemma_no_sessions_listed(lines: Seq<Seq<char>>)
    requires
        forall|k: int| 0 <= k < lines.len() ==> session_on_line(#[trigger] lines[k]) is None,
    ensures
        sessions_on_lines(lines) == Seq::<Seq<char>>::empty(),
    decreases lines.len(),
{
    if lines.len() > 0 {
        assert(session_on_line(lines[lines.len() - 1]) is None);
        lemma_no_sessions_listed(lines.drop_last());
    }
}

fn session_on_line_exec(text: &str, t: &Vec<char>, name: &Vec<char>, a: usize, b: usize) -> (r:
    Option<String>)
    requires
        t@ == text@,
        name@ == session_name_spec(),
        a <= b <= t.len(),
    ensures
        r matches Some(s) ==> session_on_line(t@.subrange(a as int, b as int)) == Some(s@),
        r is None ==> session_on_line(t@.subrange(a as int, b as int)) is None,
{
    let line = slice_chars(t, a, b);
    if find_seq(&line, name, 0).is_none() {
        return None;
    }
    let i = match find_char(&line, '.', 0) {
        Some(i) => i,
        None => {
            return None;
        },
    };
    let e = match find_char(&line, '.', i + 1) {
        Some(j) => j,
        None => line.len(),
    };
    let seg = slice_chars(&line, i + 1, e);
    let (x, y) = trim_bounds(&seg);
    let s = String::from_str(text.substring_char(a + i + 1 + x, a + i + 1 + y));
    assert(s@ =~= seg@.subrange(x as int, y as int));
    Some(s)
}

/// The sessions that `listing`, the host's listing, shows for platform `p`.
pub fn list_sessions(p: Platform, listing: &str) -> (r: Vec<String>)
    ensures
        r@.map_values(|s: String| s@) == listed_sessions(p, listing@),
{
    let t = chars_of(listing);
    match p {
        Platform::Handle => {
            let exe = chars_of("bedrock_server.exe");
            let mut r: Vec<String> = Vec::new();
            if find_seq(&t, &exe, 0).is_some() {
                r.push(String::from_str("bedrock_server"));
            }
            assert(r@.map_values(|s: String| s@) =~= listed_sessions(p, listing@));
            r
        },
        Platform::Session => {
            let name = chars_of(session_name());
            let mut out: Vec<String> = Vec::new();
            let ghost mut lines: Seq<Seq<char>> = Seq::empty();
            let mut start: usize = 0;
            let mut i: usize = 0;
            assert(t@.subrange(0, 0) =~= Seq::<char>::empty());
            assert(split_on(t@.subrange(0, 0), '\n') =~= lines.push(t@.subrange(0, 0)));
            while i < t.len()
                invariant
                    t@ == listing@,
                    name@ == session_name_spec(),
                    start <= i <= t.len(),
                    split_on(t@.subrange(0, i as int), '\n') == lines.push(
                        t@.subrange(start as int, i as int),
                    ),
                    out@.map_values(|s: String| s@) == sessions_on_lines(lines),
                decreases t.len() - i,
            {
                let ghost line = t@.subrange(start as int, i as int);
                assert(t@.subrange(0, i + 1).drop_last() =~= t@.subrange(0, i as int));
                if t[i] == '\n' {
                    let found = session_on_line_exec(listing, &t, &name, start, i);
                    proof {
                        assert(lines.push(line).drop_last() =~= lines);
                    }
                    match found {
                        Some(s) => {
                            out.push(s);
                        },
                        None => {},
                    }
                    proof {
                        assert(out@.map_values(|s: String| s@) =~= sessions_on_lines(
                            lines.push(line),
                        ));
                        lines = lines.push(line);
                        assert(t@.subrange(i + 1, i + 1) =~= Seq::<char>::empty());
                    }
                    start = i + 1;
                } else {
                    proof {
                        assert(t@.subrange(start as int, i + 1) =~= line.push(t@[i as int]));
                        assert(lines.push(line).update(lines.len() as int, line.push(t@[i as int]))
                            =~= lines.push(t@.subrange(start as int, i + 1)));
                    }
                }
                i += 1;
            }
            let ghost line = t@.subrange(start as int, i as int);
            let found = session_on_line_exec(listing, &t, &name, start, i);
            match found {
                Some(s) => {
                    out.push(s);
                },
                None => {},
            }
            proof {
                assert(t@.subrange(0, i as int) =~= t@);
                assert(lines.push(line).drop_last() =~= lines);
                assert(out@.map_values(|s: String| s@) =~= sessions_on_lines(lines.push(line)));
            }
            out
        },
    }
}

} // verus!
