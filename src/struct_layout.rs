use vstd::prelude::*;

verus! {

/// Where a field lies in a structure: its byte offset and size.
#[derive(Clone, Copy, Debug, PartialEq, Eq, Structural)]
pub struct Field {
    pub start_offs: usize,
    pub size: usize,
}

impl Field {
    /// The offset just past the field.
    pub open spec fn end(&self) -> int {
        self.start_offs + self.size
    }

    pub fn endpoint(&self) -> (r: usize)
        requires
            self.end() <= usize::MAX,
        ensures
            r == self.end(),
    {
        self.start_offs + self.size
    }
}

/// The index of the entry named `name`, if there is one (the last, were there several).
pub open spec fn find(e: Seq<(Seq<char>, Field)>, name: Seq<char>) -> Option<int>
    decreases e.len(),
{
    if e.len() == 0 {
        None
    } else if e.last().0 == name {
        Some(e.len() - 1)
    } else {
        find(e.drop_last(), name)
    }
}

/// The largest end of the entries' fields; zero when there is none.
pub open spec fn max_end(e: Seq<(Seq<char>, Field)>) -> int
    decreases e.len(),
{
    if e.len() == 0 {
        0
    } else {
        let m = max_end(e.drop_last());
        if e.last().1.end() > m {
            e.last().1.end()
        } else {
            m
        }
    }
}

proof fn lemma_find_bounds(e: Seq<(Seq<char>, Field)>, name: Seq<char>)
    ensures
        find(e, name) matches Some(i) ==> 0 <= i < e.len() && e[i].0 == name,
    decreases e.len(),
{
    if e.len() > 0 {
        lemma_find_bounds(e.drop_last(), name);
    }
}

/// The fields of a structure, by name.
pub struct StructLayout {
    names: Vec<String>,
    fields: Vec<Field>,
}

impl StructLayout {
    pub closed spec fn entries(&self) -> Seq<(Seq<char>, Field)> {
        Seq::new(self.fields@.len(), |i: int| (self.names@[i]@, self.fields@[i]))
    }

    pub closed spec fn wf(&self) -> bool {
        &&& self.names@.len() == self.fields@.len()
        &&& forall|i: int| 0 <= i < self.fields@.len() ==> #[trigger] self.fields@[i].end() <= usize::MAX
    }

    pub fn new() -> (r: StructLayout)
        ensures
            r.wf(),
            r.entries() == Seq::<(Seq<char>, Field)>::empty(),
    {
        let r = StructLayout { names: Vec::new(), fields: Vec::new() };
        assert(r.entries() =~= Seq::<(Seq<char>, Field)>::empty());
        r
    }

    fn index_of(&self, name: &str) -> (r: Option<usize>)
        requires
            self.wf(),
        ensures
            r matches Some(i) ==> find(self.entries(), name@) == Some(i as int),
            r is None ==> find(self.entries(), name@) is None,
    {
        let key = name.to_owned();
        let mut i: usize = self.fields.len();
        assert(self.entries().take(i as int) =~= self.entries());
        while i > 0
            invariant
                self.wf(),
                i <= self.fields@.len(),
                key@ == name@,
                find(self.entries(), name@) == find(self.entries().take(i as int), name@),
            decreases i,
        {
            assert(self.entries().take(i as int).drop_last() =~= self.entries().take(i - 1));
            if self.names[i - 1] == key {
                return Some(i - 1);
            }
            i = i - 1;
        }
        None
    }

    /// The size of the structure: the largest end of its fields, zero when it has none.
    pub fn size(&self) -> (r: usize)
        requires
            self.wf(),
        ensures
            r == max_end(self.entries()),
    {
        let mut m: usize = 0;
        let mut i: usize = 0;
        assert(self.entries().take(0) =~= Seq::<(Seq<char>, Field)>::empty());
        while i < self.fields.len()
            invariant
                self.wf(),
                i <= self.fields@.len(),
                m == max_end(self.entries().take(i as int)),
            decreases self.fields@.len() - i,
        {
            assert(self.entries().take(i + 1).drop_last() =~= self.entries().take(i as int));
            let end = self.fields[i].endpoint();
            if end > m {
                m = end;
            }
            i = i + 1;
        }
        assert(self.entries().take(i as int) =~= self.entries());
        m
    }

    /// Whether the structure is too large to travel in registers (over 16 bytes).
    pub fn store_indirect(&self) -> (r: bool)
        requires
            self.wf(),
        ensures
            r == (max_end(self.entries()) > 16),
    {
        self.size() > 16
    }

    /// Records the field `name`; a field of that name already there is replaced.
    pub fn push(&mut self, name: String, offs: usize, size: usize)
        requires
            old(self).wf(),
            offs + size <= usize::MAX,
        ensures
            final(self).wf(),
            ({
                let f = Field { start_offs: offs, size };
                match find(old(self).entries(), name@) {
                    Some(i) => final(self).entries() == old(self).entries().update(i, (name@, f)),
                    None => final(self).entries() == old(self).entries().push((name@, f)),
                }
            }),
    {
        let f = Field { start_offs: offs, size };
        proof {
            lemma_find_bounds(self.entries(), name@);
        }
        match self.index_of(name.as_str()) {
            Some(i) => {
                self.names.set(i, name);
                self.fields.set(i, f);
                assert(self.entries() =~= old(self).entries().update(i as int, (name@, f)));
            },
            None => {
                self.names.push(name);
                self.fields.push(f);
                assert(self.entries() =~= old(self).entries().push((name@, f)));
            },
        }
    }

    /// The field named `name`, if there is one.
    pub fn get(&self, name: &str) -> (r: Option<Field>)
        requires
            self.wf(),
        ensures
            r == match find(self.entries(), name@) {
                Some(i) => Some(self.entries()[i].1),
                None => None,
            },
    {
        proof {
            lemma_find_bounds(self.entries(), name@);
        }
        match self.index_of(name) {
            Some(i) => Some(self.fields[i]),
            None => None,
        }
    }
}

} // verus!
