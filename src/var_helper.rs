use vstd::prelude::*;
use vstd::string::StringExecFns;

verus! {

/// A register id.
pub type RegIdRepr = u16;

/// The binding that a name has now: the last one pushed for it.
pub open spec fn lookup(b: Seq<(Seq<char>, RegIdRepr)>, name: Seq<char>) -> Option<RegIdRepr>
    decreases b.len(),
{
    if b.len() == 0 {
        None
    } else if b.last().0 == name {
        Some(b.last().1)
    } else {
        lookup(b.drop_last(), name)
    }
}

/// Where every binding's id is below `n`, so is the id a name resolves to.
pub proof fn lemma_lookup_below(b: Seq<(Seq<char>, RegIdRepr)>, name: Seq<char>, n: RegIdRepr)
    requires
        forall|i: int| 0 <= i < b.len() ==> #[trigger] b[i].1 < n,
    ensures
        lookup(b, name) matches Some(id) ==> id < n,
    decreases b.len(),
{
    if b.len() > 0 {
        assert(b.last().1 < n);
        let c = b.drop_last();
        assert forall|i: int| 0 <= i < c.len() implies #[trigger] c[i].1 < n by {
            assert(c[i] == b[i]);
        }
        lemma_lookup_below(c, name, n);
    }
}

/// Binding a name shadows its earlier bindings and leaves every other name as it was.
pub proof fn lemma_lookup_push(b: Seq<(Seq<char>, RegIdRepr)>, name: Seq<char>, id: RegIdRepr, other: Seq<char>)
    ensures
        lookup(b.push((name, id)), name) == Some(id),
        other != name ==> lookup(b.push((name, id)), other) == lookup(b, other),
{
    assert(b.push((name, id)).drop_last() =~= b);
}

pub open spec fn digit_char(d: int) -> char {
    if d == 0 {
        '0'
    } else if d == 1 {
        '1'
    } else if d == 2 {
        '2'
    } else if d == 3 {
        '3'
    } else if d == 4 {
        '4'
    } else if d == 5 {
        '5'
    } else if d == 6 {
        '6'
    } else if d == 7 {
        '7'
    } else if d == 8 {
        '8'
    } else {
        '9'
    }
}

/// Decimal digits of `n`, without leading zeros.
pub open spec fn decimal(n: nat) -> Seq<char>
    decreases n,
{
    if n < 10 {
        seq![digit_char(n as int)]
    } else {
        decimal(n / 10).push(digit_char((n % 10) as int))
    }
}

/// The name under which a temporary register is bound.
pub open spec fn temp_name(id: RegIdRepr) -> Seq<char> {
    seq!['_', '_', 'v', 'a', 'r'] + decimal(id as nat)
}

/// Maps operand names to register ids and hands out fresh ids. A name bound
/// again is shadowed: it resolves to its latest binding.
pub struct VarHelper {
    names: Vec<String>,
    ids: Vec<RegIdRepr>,
    curr: RegIdRepr,
}

impl VarHelper {
    /// Every binding made, oldest first.
    pub closed spec fn bindings(&self) -> Seq<(Seq<char>, RegIdRepr)> {
        Seq::new(self.ids@.len(), |i: int| (self.names@[i]@, self.ids@[i]))
    }

    /// The id that the next fresh register gets.
    pub closed spec fn next_id(&self) -> RegIdRepr {
        self.curr
    }

    /// Names and ids pair up, and every bound id was handed out already, so a
    /// fresh id differs from every bound one.
    pub closed spec fn wf(&self) -> bool {
        &&& self.names@.len() == self.ids@.len()
        &&& forall|i: int| 0 <= i < self.ids@.len() ==> #[trigger] self.ids@[i] < self.curr
    }

    /// A name resolves only to an id below the next fresh one.
    pub proof fn lemma_resolve_below_next(&self, name: Seq<char>)
        requires
            self.wf(),
        ensures
            self.resolve(name) matches Some(id) ==> id < self.next_id(),
    {
        lemma_lookup_below(self.bindings(), name, self.next_id());
    }

    /// The id a name resolves to.
    pub open spec fn resolve(&self, name: Seq<char>) -> Option<RegIdRepr> {
        lookup(self.bindings(), name)
    }

    pub fn new() -> (r: VarHelper)
        ensures
            r.wf(),
            r.bindings() == Seq::<(Seq<char>, RegIdRepr)>::empty(),
            r.next_id() == 0,
    {
        let r = VarHelper { names: Vec::new(), ids: Vec::new(), curr: 0 };
        assert(r.bindings() =~= Seq::<(Seq<char>, RegIdRepr)>::empty());
        r
    }

    /// The id that the next fresh register gets.
    pub fn next_free(&self) -> (r: RegIdRepr)
        ensures
            r == self.next_id(),
    {
        self.curr
    }

    fn bind(&mut self, name: String, id: RegIdRepr)
        requires
            old(self).wf(),
            id < old(self).next_id(),
        ensures
            final(self).wf(),
            final(self).bindings() == old(self).bindings().push((name@, id)),
            final(self).next_id() == old(self).next_id(),
    {
        self.names.push(name);
        self.ids.push(id);
        assert(self.bindings() =~= old(self).bindings().push((name@, id)));
    }

    /// The id that `name` resolves to, if it is bound.
    pub fn get(&self, name: &str) -> (r: Option<RegIdRepr>)
        requires
            self.wf(),
        ensures
            r == self.resolve(name@),
    {
        let key = name.to_owned();
        let mut i: usize = self.ids.len();
        assert(self.bindings().take(i as int) =~= self.bindings());
        while i > 0
            invariant
                self.wf(),
                i <= self.ids@.len(),
                key@ == name@,
                lookup(self.bindings(), name@) == lookup(self.bindings().take(i as int), name@),
            decreases i,
        {
            assert(self.bindings().take(i as int).drop_last() =~= self.bindings().take(i - 1));
            if self.names[i - 1] == key {
                return Some(self.ids[i - 1]);
            }
            i = i - 1;
        }
        None
    }

    /// Binds `alias` to the id that `source` resolves to, and returns that id;
    /// `None`, and nothing bound, where `source` is not bound.
    pub fn alias(&mut self, source: &str, alias: String) -> (r: Option<RegIdRepr>)
        requires
            old(self).wf(),
        ensures
            final(self).wf(),
            r == old(self).resolve(source@),
            final(self).next_id() == old(self).next_id(),
            r matches Some(id) ==> final(self).bindings() == old(self).bindings().push((alias@, id)),
            r is None ==> final(self).bindings() == old(self).bindings(),
    {
        match self.get(source) {
            Some(id) => {
                proof {
                    self.lemma_resolve_below_next(source@);
                }
                self.bind(alias, id);
                Some(id)
            },
            None => None,
        }
    }

    fn next(&mut self) -> (r: RegIdRepr)
        requires
            old(self).next_id() < u16::MAX,
        ensures
            r == old(self).next_id(),
            final(self).next_id() == old(self).next_id() + 1,
            final(self).bindings() == old(self).bindings(),
            old(self).wf() ==> final(self).wf(),
    {
        let res = self.curr;
        self.curr = self.curr + 1;
        res
    }

    fn next_n(&mut self, reg_count: RegIdRepr) -> (r: RegIdRepr)
        requires
            old(self).next_id() + reg_count <= u16::MAX,
        ensures
            r == old(self).next_id(),
            final(self).next_id() == old(self).next_id() + reg_count,
            final(self).bindings() == old(self).bindings(),
            old(self).wf() ==> final(self).wf(),
    {
        let res = self.curr;
        self.curr = self.curr + reg_count;
        res
    }

    /// Binds `name` to a fresh register and returns its id.
    pub fn add_or_shadow(&mut self, name: &str) -> (r: RegIdRepr)
        requires
            old(self).wf(),
            old(self).next_id() < u16::MAX,
        ensures
            final(self).wf(),
            r == old(self).next_id(),
            final(self).next_id() == old(self).next_id() + 1,
            final(self).bindings() == old(self).bindings().push((name@, r)),
    {
        let id = self.next();
        self.bind(name.to_owned(), id);
        id
    }

    /// Binds `name` to a fresh pair of registers and returns the first id.
    pub fn add_or_shadow_128(&mut self, name: &str) -> (r: RegIdRepr)
        requires
            old(self).wf(),
            old(self).next_id() + 2 <= u16::MAX,
        ensures
            final(self).wf(),
            r == old(self).next_id(),
            final(self).next_id() == old(self).next_id() + 2,
            final(self).bindings() == old(self).bindings().push((name@, r)),
    {
        let id = self.next_n(2);
        self.bind(name.to_owned(), id);
        id
    }

    /// Binds a fresh register under the name `__var` followed by its id, and
    /// returns the id.
    pub fn create_temp(&mut self) -> (r: RegIdRepr)
        requires
            old(self).wf(),
            old(self).next_id() < u16::MAX,
        ensures
            final(self).wf(),
            r == old(self).next_id(),
            final(self).next_id() == old(self).next_id() + 1,
            final(self).bindings() == old(self).bindings().push((temp_name(r), r)),
    {
        let id = self.next();
        proof {
            reveal_strlit("__var");
        }
        let mut name = "__var".to_owned();
        assert(name@ =~= seq!['_', '_', 'v', 'a', 'r']);
        push_decimal(&mut name, id);
        assert(name@ =~= temp_name(id));
        self.bind(name, id);
        id
    }
}

fn digit_str(d: u16) -> (r: &'static str)
    requires
        d < 10,
    ensures
        r@ == seq![digit_char(d as int)],
{
    proof {
        reveal_strlit("0");
        reveal_strlit("1");
        reveal_strlit("2");
        reveal_strlit("3");
        reveal_strlit("4");
        reveal_strlit("5");
        reveal_strlit("6");
        reveal_strlit("7");
        reveal_strlit("8");
        reveal_strlit("9");
    }
    match d {
        0 => "0",
        1 => "1",
        2 => "2",
        3 => "3",
        4 => "4",
        5 => "5",
        6 => "6",
        7 => "7",
        8 => "8",
        _ => "9",
    }
}

fn push_decimal(s: &mut String, n: u16)
    ensures
        final(s)@ == old(s)@ + decimal(n as nat),
    decreases n,
{
    if n >= 10 {
        push_decimal(s, n / 10);
    }
    s.append(digit_str(n % 10));
    assert(s@ =~= old(s)@ + decimal(n as nat));
}

} // verus!
