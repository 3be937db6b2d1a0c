//! The Gecko profile descriptor: an INI-style file of sections, each
//! holding key/value pairs. The default profile is the first section
//! whose `name` key (matched without regard to ASCII case) has the exact
//! value `default-release`; its `path` key names the profile's storage
//! directory relative to the profile root.

use crate::text::{
    ci_matches, find_first, lemma_find_first_at, lemma_find_first_none, spec_lines, spec_trim,
    str_ci_eq, str_eq, trim_str,
};
use vstd::prelude::*;

verus! {

/// One key/value pair of the descriptor, tagged with the index of the
/// section it stands in. Pairs before the first section header carry
/// index zero; each header starts the next index.
pub struct IniEntry {
    pub section: usize,
    pub key: String,
    pub value: String,
}

/// The mathematical shape of an entry.
pub struct EntryModel {
    pub section: nat,
    pub key: Seq<char>,
    pub value: Seq<char>,
}

impl View for IniEntry {
    type V = EntryModel;

    open spec fn view(&self) -> EntryModel {
        EntryModel { section: self.section as nat, key: self.key@, value: self.value@ }
    }
}

pub open spec fn entry_views(s: Seq<IniEntry>) -> Seq<EntryModel> {
    s.map_values(|e: IniEntry| e@)
}

pub open spec fn eq_pred() -> spec_fn(char) -> bool {
    |c: char| c == '='
}

/// A section header: once trimmed, the line is bracketed.
pub open spec fn is_header_line(l: Seq<char>) -> bool {
    let t = spec_trim(l);
    t.len() >= 2 && t[0] == '[' && t[t.len() - 1] == ']'
}

/// The entries of the descriptor's lines, read top to bottom: a header
/// moves to the next section index, a line with `=` yields a pair whose
/// key and value are the trimmed halves around the first `=`, and every
/// other line is passed over.
pub open spec fn spec_entries(lines: Seq<Seq<char>>, sec: nat) -> Seq<EntryModel>
    decreases lines.len(),
{
    if lines.len() == 0 {
        seq![]
    } else {
        let l = lines[0];
        let rest = lines.drop_first();
        if is_header_line(l) {
            spec_entries(rest, sec + 1)
        } else {
            let n = find_first(l, eq_pred());
            if 0 <= n < l.len() {
                seq![
                    EntryModel {
                        section: sec,
                        key: spec_trim(l.subrange(0, n)),
                        value: spec_trim(l.subrange(n + 1, l.len() as int)),
                    },
                ] + spec_entries(rest, sec)
            } else {
                spec_entries(rest, sec)
            }
        }
    }
}

/// Index of the first `=` of the line, if any.
fn find_eq(s: &str) -> (r: Option<usize>)
    ensures
        match r {
            Some(n) => n == find_first(s@, eq_pred()) && n < s@.len(),
            None => find_first(s@, eq_pred()) < 0,
        },
{
    let len = s.unicode_len();
    let mut i: usize = 0;
    while i < len
        invariant
            i <= len,
            len == s@.len(),
            forall|j: int| 0 <= j < i ==> s@[j] != '=',
        decreases len - i,
    {
        if s.get_char(i) == '=' {
            proof {
                assert(forall|j: int| 0 <= j < i ==> !(eq_pred()(s@[j])));
                assert(eq_pred()(s@[i as int]));
                lemma_find_first_at(s@, eq_pred(), i as int);
            }
            return Some(i);
        }
        i += 1;
    }
    proof {
        assert(forall|j: int| 0 <= j < s@.len() ==> !(eq_pred()(s@[j])));
        lemma_find_first_none(s@, eq_pred());
    }
    None
}

/// Parses the descriptor's lines into the flat entry list that
/// `spec_entries` describes.
pub fn parse_entries(lines: &Vec<String>) -> (r: Vec<IniEntry>)
    ensures
        entry_views(r@) == spec_entries(lines.deep_view(), 0),
{
    let ghost dv = lines.deep_view();
    let mut out: Vec<IniEntry> = Vec::new();
    proof {
        assert(dv.skip(0) =~= dv);
        assert(entry_views(out@) =~= Seq::<EntryModel>::empty());
        assert(entry_views(out@) + spec_entries(dv, 0) =~= spec_entries(dv, 0));
    }
    let mut sec: usize = 0;
    let mut i: usize = 0;
    while i < lines.len()
        invariant
            i <= lines.len(),
            sec <= i,
            dv == lines.deep_view(),
            dv.len() == lines.len(),
            spec_entries(dv, 0) == entry_views(out@) + spec_entries(dv.skip(i as int), sec as nat),
        decreases lines.len() - i,
    {
        let l: &String = &lines[i];
        proof {
            assert(dv[i as int] == l@);
            assert(dv.skip(i as int)[0] == dv[i as int]);
            assert(dv.skip(i as int).drop_first() =~= dv.skip(i as int + 1));
        }
        let t = trim_str(l.as_str());
        let tlen = t.unicode_len();
        if tlen >= 2 && t.get_char(0) == '[' && t.get_char(tlen - 1) == ']' {
            proof {
                assert(is_header_line(l@));
            }
            sec = sec + 1;
        } else {
            proof {
                assert(!is_header_line(l@));
            }
            match find_eq(l.as_str()) {
                Some(n) => {
                    let rawkey = l.as_str().substring_char(0, n);
                    let key = trim_str(rawkey);
                    let llen = l.as_str().unicode_len();
                    let rawval = l.as_str().substring_char(n + 1, llen);
                    let value = trim_str(rawval);
                    let entry = IniEntry {
                        section: sec,
                        key: String::from_str(key),
                        value: String::from_str(value),
                    };
                    let ghost old_views = entry_views(out@);
                    let ghost em = entry@;
                    out.push(entry);
                    proof {
                        assert(rawkey@ == l@.subrange(0, n as int));
                        assert(rawval@ == l@.subrange(n as int + 1, l@.len() as int));
                        assert(em.key == spec_trim(l@.subrange(0, n as int)));
                        assert(em.value == spec_trim(l@.subrange(n as int + 1, l@.len() as int)));
                        assert(em.section == sec as nat);
                        assert(spec_entries(dv.skip(i as int), sec as nat) == seq![em]
                            + spec_entries(dv.skip(i as int + 1), sec as nat));
                        assert(entry_views(out@) =~= old_views.push(em));
                        assert(entry_views(out@) + spec_entries(dv.skip(i as int + 1), sec as nat)
                            =~= old_views + spec_entries(dv.skip(i as int), sec as nat));
                    }
                },
                None => {
                },
            }
        }
        i += 1;
    }
    proof {
        assert(dv.skip(dv.len() as int) =~= Seq::<Seq<char>>::empty());
        assert(entry_views(out@) + spec_entries(dv.skip(dv.len() as int), sec as nat)
            =~= entry_views(out@));
    }
    out
}

/// The pair that marks the default profile's section.
pub open spec fn marker_pred() -> spec_fn(EntryModel) -> bool {
    |e: EntryModel| ci_matches(e.key, "name"@) && e.value == "default-release"@
}

/// A `path` pair inside the given section.
pub open spec fn path_pred(sec: nat) -> spec_fn(EntryModel) -> bool {
    |e: EntryModel| e.section == sec && ci_matches(e.key, "path"@)
}

/// The storage directory of the default profile: the value of the first
/// `path` pair in the section of the first `name = default-release`
/// pair, if both exist.
pub open spec fn spec_profile_dir(entries: Seq<EntryModel>) -> Option<Seq<char>> {
    let m = find_first(entries, marker_pred());
    if m < 0 || m >= entries.len() {
        None
    } else {
        let p = find_first(entries, path_pred(entries[m].section));
        if p < 0 || p >= entries.len() {
            None
        } else {
            Some(entries[p].value)
        }
    }
}

/// Index of the first `name = default-release` pair, if any.
fn find_marker_index(entries: &Vec<IniEntry>) -> (r: Option<usize>)
    ensures
        match r {
            Some(m) => m < entries@.len() && find_first(entry_views(entries@), marker_pred())
                == m as int,
            None => find_first(entry_views(entries@), marker_pred()) < 0,
        },
{
    let ghost ev = entry_views(entries@);
    let mut m: usize = 0;
    while m < entries.len()
        invariant
            m <= entries.len(),
            ev == entry_views(entries@),
            ev.len() == entries@.len(),
            forall|j: int| 0 <= j < m ==> !(marker_pred()(ev[j])),
        decreases entries.len() - m,
    {
        let e = &entries[m];
        proof {
            assert(ev[m as int] == e@);
        }
        if str_ci_eq(e.key.as_str(), "name") && str_eq(e.value.as_str(), "default-release") {
            proof {
                assert(marker_pred()(ev[m as int]));
                lemma_find_first_at(ev, marker_pred(), m as int);
            }
            return Some(m);
        }
        m += 1;
    }
    proof {
        lemma_find_first_none(ev, marker_pred());
    }
    None
}

/// Index of the first `path` pair inside the given section, if any.
fn find_path_index(entries: &Vec<IniEntry>, msec: usize) -> (r: Option<usize>)
    ensures
        match r {
            Some(p) => p < entries@.len() && find_first(
                entry_views(entries@),
                path_pred(msec as nat),
            ) == p as int,
            None => find_first(entry_views(entries@), path_pred(msec as nat)) < 0,
        },
{
    let ghost ev = entry_views(entries@);
    let ghost pp = path_pred(msec as nat);
    let mut p: usize = 0;
    while p < entries.len()
        invariant
            p <= entries.len(),
            ev == entry_views(entries@),
            ev.len() == entries@.len(),
            pp == path_pred(msec as nat),
            forall|j: int| 0 <= j < p ==> !(pp(ev[j])),
        decreases entries.len() - p,
    {
        let e = &entries[p];
        proof {
            assert(ev[p as int] == e@);
        }
        if e.section == msec && str_ci_eq(e.key.as_str(), "path") {
            proof {
                assert(pp(ev[p as int]));
                lemma_find_first_at(ev, pp, p as int);
            }
            return Some(p);
        }
        p += 1;
    }
    proof {
        lemma_find_first_none(ev, pp);
    }
    None
}

/// Scans the entries for the default profile's storage directory.
pub fn find_default_profile_dir(entries: &Vec<IniEntry>) -> (r: Option<String>)
    ensures
        match r {
            Some(d) => spec_profile_dir(entry_views(entries@)) == Some(d@),
            None => spec_profile_dir(entry_views(entries@)) is None,
        },
{
    let ghost ev = entry_views(entries@);
    let m = match find_marker_index(entries) {
        Some(m) => m,
        None => {
            return None;
        },
    };
    let msec = entries[m].section;
    proof {
        assert(ev[m as int].section == msec as nat);
    }
    let p = match find_path_index(entries, msec) {
        Some(p) => p,
        None => {
            return None;
        },
    };
    let dir = entries[p].value.clone();
    proof {
        assert(dir@ == ev[p as int].value);
    }
    Some(dir)
}

/// The resolved cookie database path for a descriptor text: the profile
/// root, then the default profile's directory, then `/cookies.sqlite`;
/// empty when the descriptor names no default profile.
pub open spec fn spec_profile_db_path(root: Seq<char>, descriptor: Seq<char>) -> Seq<char> {
    match spec_profile_dir(spec_entries(spec_lines(descriptor), 0)) {
        Option::None => Seq::empty(),
        Option::Some(d) => root + d + "/cookies.sqlite"@,
    }
}

} // verus!
