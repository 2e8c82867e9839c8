//! The key = value configuration format.  One binding per line;
//! everything from `#` on is a comment; outer whitespace around keys
//! and values is stripped; a line without `=` is skipped; a later
//! binding of a key overrides an earlier one.
use vstd::prelude::*;
use vstd::string::StrSliceExecFns;
use vstd::string::StringExecFns;
use crate::util::find_char;
use crate::util::find_char_spec;
use crate::util::lemma_find_char;
use crate::util::spec_trim;
use crate::util::trim_str;

verus! {

/// Names of the per-display configuration keys.
pub struct CompositorConfig;

impl CompositorConfig {
    /// The key under which a display's desired position is stored.
    pub fn offset_key(display_name: &str) -> (r: String)
        ensures
            r@ == display_name@ + ".offset"@,
    {
        let mut s = display_name.to_owned();
        s.append(".offset");
        s
    }
}

/// The comment-stripped part of a line: everything before the first
/// `#`.
pub open spec fn spec_strip_comment(s: Seq<char>) -> Seq<char> {
    match find_char_spec(s, '#') {
        None => s,
        Some(i) => s.subrange(0, i as int),
    }
}

/// The first `=` splits a line into key and value.
pub open spec fn spec_split_eq(s: Seq<char>) -> Option<(Seq<char>, Seq<char>)> {
    match find_char_spec(s, '=') {
        None => None,
        Some(i) => Some((s.subrange(0, i as int), s.subrange(i as int + 1, s.len() as int))),
    }
}

/// The binding one line contributes: comment stripped, trimmed, split
/// at the first `=`, key and value trimmed.  Empty and separator-less
/// lines contribute nothing.
pub open spec fn spec_parse_line(line: Seq<char>) -> Option<(Seq<char>, Seq<char>)> {
    let t = spec_trim(spec_strip_comment(line));
    if t.len() == 0 {
        None
    } else {
        match spec_split_eq(t) {
            None => None,
            Some(kv) => Some((spec_trim(kv.0), spec_trim(kv.1))),
        }
    }
}

/// The lines of the input, split at `\n`.
pub open spec fn spec_lines(s: Seq<char>) -> Seq<Seq<char>>
    decreases s.len(),
    via spec_lines_decreases
{
    match find_char_spec(s, '\n') {
        None => seq![s],
        Some(i) => seq![s.subrange(0, i as int)] + spec_lines(
            s.subrange(i as int + 1, s.len() as int),
        ),
    }
}

#[via_fn]
proof fn spec_lines_decreases(s: Seq<char>) {
    lemma_find_char(s, '\n');
}

/// The bindings of a line list, in order.
pub open spec fn spec_collect(lines: Seq<Seq<char>>) -> Seq<(Seq<char>, Seq<char>)>
    decreases lines.len(),
{
    if lines.len() == 0 {
        Seq::empty()
    } else {
        let rest = spec_collect(lines.drop_first());
        match spec_parse_line(lines[0]) {
            Some(kv) => seq![kv] + rest,
            None => rest,
        }
    }
}

/// All bindings of a configuration text, in line order.
pub open spec fn spec_parse_config(s: Seq<char>) -> Seq<(Seq<char>, Seq<char>)> {
    spec_collect(spec_lines(s))
}

/// The value bound to `k`: the last binding wins.
pub open spec fn spec_cfg_lookup(t: Seq<(Seq<char>, Seq<char>)>, k: Seq<char>) -> Option<Seq<char>>
    decreases t.len(),
{
    if t.len() == 0 {
        None
    } else if t.last().0 == k {
        Some(t.last().1)
    } else {
        spec_cfg_lookup(t.drop_last(), k)
    }
}

/// The binding one line contributes, if any.
fn parse_line(line: &str) -> (r: Option<(String, String)>)
    ensures
        r is Some <==> spec_parse_line(line@) is Some,
        r matches Some(kv) ==> spec_parse_line(line@) == Some((kv.0@, kv.1@)),
{
    proof {
        lemma_find_char(line@, '#');
    }
    let stripped = match find_char(line, '#') {
        None => line,
        Some(i) => line.substring_char(0, i),
    };
    let t = trim_str(stripped);
    let tn = t.unicode_len();
    if tn == 0 {
        return None;
    }
    proof {
        lemma_find_char(t@, '=');
    }
    match find_char(t, '=') {
        None => None,
        Some(i) => {
            let k = trim_str(t.substring_char(0, i));
            let v = trim_str(t.substring_char(i + 1, tn));
            Some((k.to_owned(), v.to_owned()))
        },
    }
}

/// A parsed configuration: the bindings of the text, in line order.
#[derive(Debug)]
pub struct Config {
    data: Vec<(String, String)>,
}

impl View for Config {
    type V = Seq<(Seq<char>, Seq<char>)>;

    closed spec fn view(&self) -> Seq<(Seq<char>, Seq<char>)> {
        self.data.deep_view()
    }
}

impl Config {
    /// An empty configuration.
    pub fn new_empty() -> (r: Config)
        ensures
            r@ == Seq::<(Seq<char>, Seq<char>)>::empty(),
    {
        let c = Config { data: Vec::new() };
        proof {
            assert(c@ =~= Seq::<(Seq<char>, Seq<char>)>::empty());
        }
        c
    }

    /// Parse a configuration text.
    #[verifier::loop_isolation(false)]
    pub fn from_str(s: &str) -> (cfg: Config)
        ensures
            cfg@ == spec_parse_config(s@),
    {
        let n = s.unicode_len();
        let mut data: Vec<(String, String)> = Vec::new();
        let mut pos: usize = 0;
        let mut done: bool = false;
        proof {
            assert(s@.subrange(0, n as int) =~= s@);
            assert(data.deep_view() =~= Seq::<(Seq<char>, Seq<char>)>::empty());
        }
        while !done
            invariant
                n == s@.len(),
                pos <= n,
                !done ==> spec_parse_config(s@) == data.deep_view() + spec_collect(
                    spec_lines(s@.subrange(pos as int, n as int)),
                ),
                done ==> spec_parse_config(s@) == data.deep_view(),
            decreases n - pos + (if done { 0int } else { 1int }),
        {
            let ghost remaining = s@.subrange(pos as int, n as int);
            let ghost data_before = data.deep_view();
            let rest = s.substring_char(pos, n);
            proof {
                lemma_find_char(rest@, '\n');
            }
            let nl = find_char(rest, '\n');
            let line = match nl {
                Some(i) => s.substring_char(pos, pos + i),
                None => rest,
            };
            proof {
                if nl is Some {
                    let i = nl->0 as int;
                    assert(line@ =~= remaining.subrange(0, i));
                    assert(remaining.subrange(i + 1, remaining.len() as int) =~= s@.subrange(
                        pos as int + i + 1,
                        n as int,
                    ));
                }
            }
            match parse_line(line) {
                Some(kv) => {
                    let ghost kvv = (kv.0@, kv.1@);
                    data.push(kv);
                    proof {
                        assert(data.deep_view() =~= data_before + seq![kvv]);
                    }
                },
                None => (),
            }
            proof {
                let ls = spec_lines(remaining);
                if nl is Some {
                    let i = nl->0 as int;
                    let rem2 = s@.subrange(pos as int + i + 1, n as int);
                    assert(ls == seq![line@] + spec_lines(rem2));
                    assert(ls[0] == line@);
                    assert(ls.drop_first() =~= spec_lines(rem2));
                    assert(spec_parse_config(s@) =~= data.deep_view() + spec_collect(
                        spec_lines(rem2),
                    ));
                } else {
                    assert(ls == seq![line@]);
                    assert(ls[0] == line@);
                    assert(ls.drop_first() =~= Seq::<Seq<char>>::empty());
                    assert(spec_collect(Seq::<Seq<char>>::empty()) == Seq::<
                        (Seq<char>, Seq<char>),
                    >::empty());
                    assert(spec_parse_config(s@) =~= data.deep_view());
                }
            }
            match nl {
                Some(i) => {
                    pos = pos + i + 1;
                },
                None => {
                    done = true;
                },
            }
        }
        Config { data }
    }

    /// The raw value bound to `k`, if any; a later binding of the same
    /// key overrides an earlier one.
    pub fn get(&self, k: &str) -> (r: Option<String>)
        ensures
            r matches Some(v) ==> spec_cfg_lookup(self@, k@) == Some(v@),
            r is None ==> spec_cfg_lookup(self@, k@) is None,
    {
        let needle = String::from_str(k);
        let mut i: usize = self.data.len();
        proof {
            assert(self.data.deep_view().subrange(0, i as int) =~= self@);
        }
        while i > 0
            invariant
                i <= self.data@.len(),
                needle@ == k@,
                spec_cfg_lookup(self@, k@) == spec_cfg_lookup(
                    self.data.deep_view().subrange(0, i as int),
                    k@,
                ),
            decreases i,
        {
            let ghost cur = self.data.deep_view().subrange(0, i as int);
            let entry = &self.data[i - 1];
            proof {
                assert(cur.last() == self.data.deep_view()[i - 1]);
                assert(cur.drop_last() =~= self.data.deep_view().subrange(0, i as int - 1));
            }
            if entry.0.eq(&needle) {
                return Some(entry.1.clone());
            }
            i -= 1;
        }
        proof {
            assert(self.data.deep_view().subrange(0, 0) =~= Seq::<(Seq<char>, Seq<char>)>::empty());
        }
        None
    }
}

} // verus!
