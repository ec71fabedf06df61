use vstd::prelude::*;
use vstd::string::StringExecFns;

verus! {

/// The texts of a list of strings.
pub open spec fn texts(v: Seq<String>) -> Seq<Seq<char>> {
    v.map_values(|s: String| s@)
}

/// One line of the help page: `<keys>: description`.
pub open spec fn help_line(keys: Seq<char>, desc: Seq<char>) -> Seq<char> {
    seq!['<'] + keys + seq!['>', ':', ' '] + desc
}

/// One entry of the short help in the footer: `keys: description`.
pub open spec fn short_help_line(keys: Seq<char>, desc: Seq<char>) -> Seq<char> {
    keys + seq![':', ' '] + desc
}

/// The help lines of a table of (keys, description) rows.
pub open spec fn help_lines(t: Seq<(Seq<char>, Seq<char>)>) -> Seq<Seq<char>> {
    t.map_values(|p: (Seq<char>, Seq<char>)| help_line(p.0, p.1))
}

/// The short help entries, each with its priority, of a table of (keys, description, priority) rows.
pub open spec fn short_help_lines(t: Seq<(Seq<char>, Seq<char>, usize)>) -> Seq<(Seq<char>, usize)> {
    t.map_values(|p: (Seq<char>, Seq<char>, usize)| (short_help_line(p.0, p.1), p.2))
}

pub open spec fn table_view(t: Seq<(&str, &str)>) -> Seq<(Seq<char>, Seq<char>)> {
    t.map_values(|p: (&str, &str)| (p.0@, p.1@))
}

pub open spec fn short_table_view(t: Seq<(&str, &str, usize)>) -> Seq<(Seq<char>, Seq<char>, usize)> {
    t.map_values(|p: (&str, &str, usize)| (p.0@, p.1@, p.2))
}

pub open spec fn short_helps_view(v: Seq<(String, usize)>) -> Seq<(Seq<char>, usize)> {
    v.map_values(|p: (String, usize)| (p.0@, p.1))
}

fn help_text(keys: &str, desc: &str) -> (r: String)
    ensures
        r@ == help_line(keys@, desc@),
{
    let mut s = String::from_str("<");
    s.append(keys);
    s.append(">: ");
    s.append(desc);
    proof {
        reveal_strlit("<");
        reveal_strlit(">: ");
    }
    assert(s@ =~= help_line(keys@, desc@));
    s
}

fn short_help_text(keys: &str, desc: &str) -> (r: String)
    ensures
        r@ == short_help_line(keys@, desc@),
{
    let mut s = String::from_str(keys);
    s.append(": ");
    s.append(desc);
    proof {
        reveal_strlit(": ");
    }
    assert(s@ =~= short_help_line(keys@, desc@));
    s
}

/// Writes the help page lines of a table of (keys, description) rows.
pub fn build_helps(t: &Vec<(&str, &str)>) -> (r: Vec<String>)
    ensures
        texts(r@) == help_lines(table_view(t@)),
{
    let mut r: Vec<String> = Vec::new();
    let mut i: usize = 0;
    while i < t.len()
        invariant
            i <= t@.len(),
            r@.len() == i,
            texts(r@) == help_lines(table_view(t@.subrange(0, i as int))),
        decreases t@.len() - i,
    {
        let (keys, desc) = t[i];
        let ghost before = r@;
        r.push(help_text(keys, desc));
        let ghost want = help_lines(table_view(t@.subrange(0, i + 1)));
        assert forall|j: int| 0 <= j < r@.len() implies texts(r@)[j] == want[j] by {
            if j < i {
                assert(texts(before)[j] == help_lines(table_view(t@.subrange(0, i as int)))[j]);
            }
        }
        assert(texts(r@) =~= want);
        i = i + 1;
    }
    assert(t@.subrange(0, i as int) =~= t@);
    r
}

/// Writes the footer entries of a table of (keys, description, priority) rows.
pub fn build_short_helps(t: &Vec<(&str, &str, usize)>) -> (r: Vec<(String, usize)>)
    ensures
        short_helps_view(r@) == short_help_lines(short_table_view(t@)),
{
    let mut r: Vec<(String, usize)> = Vec::new();
    let mut i: usize = 0;
    while i < t.len()
        invariant
            i <= t@.len(),
            r@.len() == i,
            short_helps_view(r@) == short_help_lines(short_table_view(t@.subrange(0, i as int))),
        decreases t@.len() - i,
    {
        let (keys, desc, priority) = t[i];
        let ghost before = r@;
        r.push((short_help_text(keys, desc), priority));
        let ghost want = short_help_lines(short_table_view(t@.subrange(0, i + 1)));
        assert forall|j: int| 0 <= j < r@.len() implies short_helps_view(r@)[j] == want[j] by {
            if j < i {
                assert(short_helps_view(before)[j] == short_help_lines(
                    short_table_view(t@.subrange(0, i as int)),
                )[j]);
            }
        }
        assert(short_helps_view(r@) =~= want);
        i = i + 1;
    }
    assert(t@.subrange(0, i as int) =~= t@);
    r
}

} // verus!
