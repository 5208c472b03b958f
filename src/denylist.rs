use vstd::prelude::*;

verus! {

/// The text cut at every `'\n'`: one piece more than there are newlines.
pub open spec fn split_newlines(s: Seq<char>) -> Seq<Seq<char>>
    decreases s.len(),
{
    if s.len() == 0 {
        seq![Seq::empty()]
    } else {
        let p = split_newlines(s.drop_last());
        if s.last() == '\n' {
            p.push(Seq::empty())
        } else {
            p.update(p.len() - 1, p.last().push(s.last()))
        }
    }
}

/// A line ended by `"\r\n"` loses its `'\r'`.
pub open spec fn strip_cr(l: Seq<char>) -> Seq<char> {
    if l.len() > 0 && l.last() == '\r' {
        l.drop_last()
    } else {
        l
    }
}

/// The lines of a text: each piece before a `'\n'` without a trailing
/// `'\r'`, then the text after the last `'\n'` if it is not empty.
pub open spec fn text_lines(s: Seq<char>) -> Seq<Seq<char>> {
    let p = split_newlines(s);
    let ended = p.drop_last().map_values(|l: Seq<char>| strip_cr(l));
    if p.last().len() == 0 {
        ended
    } else {
        ended.push(p.last())
    }
}

/// The set of process names to terminate. Each name is held once.
pub struct Denylist {
    entries: Vec<String>,
}

pub open spec fn entry_views(v: Seq<String>) -> Seq<Seq<char>> {
    v.map_values(|e: String| e@)
}

impl View for Denylist {
    type V = Set<Seq<char>>;

    closed spec fn view(&self) -> Set<Seq<char>> {
        entry_views(self.entries@).to_set()
    }
}

impl Denylist {
    pub closed spec fn wf(&self) -> bool {
        entry_views(self.entries@).no_duplicates()
    }

    pub fn new() -> (r: Denylist)
        ensures
            r.wf(),
            r@ == Set::<Seq<char>>::empty(),
    {
        let r = Denylist { entries: Vec::new() };
        assert(r@ =~= Set::<Seq<char>>::empty());
        r
    }

    /// Exact, case-sensitive membership.
    pub fn contains(&self, name: &String) -> (r: bool)
        ensures
            r == self@.contains(name@),
    {
        let mut i: usize = 0;
        while i < self.entries.len()
            invariant
                i <= self.entries@.len(),
                forall|j: int| 0 <= j < i ==> self.entries@[j]@ != name@,
            decreases self.entries@.len() - i,
        {
            if self.entries[i] == *name {
                assert(entry_views(self.entries@)[i as int] == name@);
                return true;
            }
            i += 1;
        }
        proof {
            if entry_views(self.entries@).contains(name@) {
                let j = choose|j: int|
                    0 <= j < entry_views(self.entries@).len() && entry_views(self.entries@)[j]
                        == name@;
                assert(self.entries@[j]@ == name@);
            }
        }
        false
    }

    /// Adds `name`; a name already present is kept once.
    pub fn insert(&mut self, name: String)
        requires
            old(self).wf(),
        ensures
            final(self).wf(),
            final(self)@ == old(self)@.insert(name@),
    {
        if !self.contains(&name) {
            let ghost before = entry_views(self.entries@);
            self.entries.push(name);
            proof {
                assert(entry_views(self.entries@) =~= before.push(name@));
                lemma_push_to_set(before, name@);
            }
        } else {
            assert(self@.insert(name@) =~= self@);
        }
    }

    /// Number of distinct names.
    pub fn len(&self) -> (r: usize)
        requires
            self.wf(),
        ensures
            r == self@.len(),
    {
        proof {
            entry_views(self.entries@).unique_seq_to_set();
        }
        self.entries.len()
    }
}

/// What the text of a denylist file yields.
pub enum Loaded {
    /// The file holds no bytes at all: a configuration to report, not a failure.
    Empty,
    /// The distinct lines of the file.
    Entries(Denylist),
}

/// The piece `content[start..end]` without a trailing `'\r'`.
fn ended_line(content: &str, start: usize, end: usize) -> (r: String)
    requires
        start <= end <= content@.len(),
    ensures
        r@ == strip_cr(content@.subrange(start as int, end as int)),
{
    let mut stop = end;
    if start < end && content.get_char(end - 1) == '\r' {
        stop = end - 1;
    }
    let r = String::from_str(content.substring_char(start, stop));
    if start < end {
        assert(content@.subrange(start as int, end as int).drop_last() =~= content@.subrange(
            start as int,
            end - 1,
        ));
    }
    r
}

/// Parses the text of a denylist file: one name per line, duplicates kept
/// once, no trimming and no comments.
pub fn parse_denylist(content: &str) -> (r: Loaded)
    ensures
        match r {
            Loaded::Empty => content@.len() == 0,
            Loaded::Entries(d) => {
                &&& content@.len() > 0
                &&& d.wf()
                &&& d@ == text_lines(content@).to_set()
            },
        },
{
    let n = content.unicode_len();
    if n == 0 {
        return Loaded::Empty;
    }
    let mut d = Denylist::new();
    let mut start: usize = 0;
    let mut i: usize = 0;
    let ghost mut done: Seq<Seq<char>> = Seq::empty();
    assert(content@.subrange(0, 0) =~= Seq::<char>::empty());
    while i < n
        invariant
            n == content@.len(),
            start <= i <= n,
            d.wf(),
            split_newlines(content@.subrange(0, i as int)) == done.push(
                content@.subrange(start as int, i as int),
            ),
            d@ == done.map_values(|l: Seq<char>| strip_cr(l)).to_set(),
        decreases n - i,
    {
        let c = content.get_char(i);
        let ghost pre = content@.subrange(0, i as int);
        assert(content@.subrange(0, i + 1).drop_last() =~= pre);
        if c == '\n' {
            let line = ended_line(content, start, i);
            let ghost old_set = d@;
            d.insert(line);
            proof {
                let piece = content@.subrange(start as int, i as int);
                let nd = done.push(piece);
                assert(nd.map_values(|l: Seq<char>| strip_cr(l)) =~= done.map_values(
                    |l: Seq<char>| strip_cr(l),
                ).push(strip_cr(piece)));
                lemma_push_to_set(done.map_values(|l: Seq<char>| strip_cr(l)), strip_cr(piece));
                done = nd;
                assert(content@.subrange((i + 1) as int, (i + 1) as int) =~= Seq::<char>::empty());
            }
            start = i + 1;
        } else {
            proof {
                assert(content@.subrange(start as int, i + 1) =~= content@.subrange(
                    start as int,
                    i as int,
                ).push(c));
                assert(done.push(content@.subrange(start as int, i as int)).update(
                    done.len() as int,
                    content@.subrange(start as int, i + 1),
                ) =~= done.push(content@.subrange(start as int, i + 1)));
            }
        }
        i += 1;
    }
    assert(content@.subrange(0, n as int) =~= content@);
    let ghost body = done.map_values(|l: Seq<char>| strip_cr(l));
    assert(split_newlines(content@).drop_last() =~= done);
    if start < n {
        let last = String::from_str(content.substring_char(start, n));
        d.insert(last);
        proof {
            lemma_push_to_set(body, last@);
        }
    }
    Loaded::Entries(d)
}

proof fn lemma_push_to_set(s: Seq<Seq<char>>, x: Seq<char>)
    ensures
        s.push(x).to_set() == s.to_set().insert(x),
{
    assert forall|y: Seq<char>| #[trigger]
        s.push(x).to_set().contains(y) <==> s.to_set().insert(x).contains(y) by {
        if s.push(x).contains(y) {
            let j = choose|j: int| 0 <= j < s.push(x).len() && s.push(x)[j] == y;
            if j < s.len() {
                assert(s[j] == y);
            }
        }
        if y == x {
            assert(s.push(x)[s.len() as int] == y);
        }
        if s.contains(y) {
            let j = choose|j: int| 0 <= j < s.len() && s[j] == y;
            assert(s.push(x)[j] == y);
        }
    }
    assert(s.push(x).to_set() =~= s.to_set().insert(x));
}

} // verus!
