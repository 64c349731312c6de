//! The attribute dictionary: an insertion-ordered mapping from attribute
//! name to attribute, scoped to one (mesh, location) pair.  Names are
//! unique; re-adding a name replaces the prior attribute in place, so
//! iteration order stays deterministic.

use vstd::prelude::*;

use crate::attrib::AttrData;
use crate::attrib::AttrView;
use crate::attrib::AttribValues;
use crate::attrib::Attribute;
use crate::error::AttribError;

verus! {

/// Whether some entry of `s` is named `name`.
pub open spec fn dict_contains(s: Seq<AttrView>, name: Seq<char>) -> bool {
    exists|i: int| 0 <= i < s.len() && s[i].name == name
}

/// The index of the entry named `name` (meaningful only when
/// `dict_contains` holds and names are unique).
pub open spec fn dict_index_of(s: Seq<AttrView>, name: Seq<char>) -> int {
    choose|i: int| 0 <= i < s.len() && s[i].name == name
}

/// The dictionary after inserting `a`: an entry with the same name is
/// replaced in place, otherwise `a` is appended.
pub open spec fn dict_insert(s: Seq<AttrView>, a: AttrView) -> Seq<AttrView> {
    if dict_contains(s, a.name) {
        s.update(dict_index_of(s, a.name), a)
    } else {
        s.push(a)
    }
}

/// No two entries share a name.
pub open spec fn names_unique(s: Seq<AttrView>) -> bool {
    forall|i: int, j: int| 0 <= i < j < s.len() ==> s[i].name != s[j].name
}

/// Dictionary well-formedness at a location with `card` elements: names
/// are unique and every entry is well-formed for that cardinality.
pub open spec fn dict_wf(s: Seq<AttrView>, card: nat) -> bool {
    names_unique(s) && forall|i: int| 0 <= i < s.len() ==> s[i].wf_for(card)
}

/// Inserting a well-formed attribute into a well-formed dictionary keeps
/// the dictionary well-formed.
pub proof fn lemma_dict_insert_wf(s: Seq<AttrView>, a: AttrView, card: nat)
    requires
        dict_wf(s, card),
        a.wf_for(card),
    ensures
        dict_wf(dict_insert(s, a), card),
{
    let t = dict_insert(s, a);
    if dict_contains(s, a.name) {
        let k = dict_index_of(s, a.name);
        assert(0 <= k < s.len() && s[k].name == a.name);
        assert forall|i: int, j: int| 0 <= i < j < t.len() implies t[i].name != t[j].name by {
            assert(t[i].name == s[i].name || (i == k && t[i].name == a.name && a.name == s[k].name));
            assert(t[j].name == s[j].name || (j == k && t[j].name == a.name && a.name == s[k].name));
        }
    } else {
        assert forall|i: int, j: int| 0 <= i < j < t.len() implies t[i].name != t[j].name by {
            if j < s.len() {
                assert(s[i].name != s[j].name);
            } else {
                assert(t[j].name == a.name);
                assert(s[i].name != a.name);
            }
        }
    }
}

/// The string pool as a sequence of character sequences.
pub open spec fn pool_view(strings: Seq<&str>) -> Seq<Seq<char>> {
    Seq::new(strings.len(), |i: int| strings[i]@)
}

/// Every index in `data` stays below the pool size (negative indices
/// mean "no value" and are always in range).
pub open spec fn str_indices_ok(data: Seq<i64>, npool: nat) -> bool {
    forall|i: int| 0 <= i < data.len() ==> data[i] < npool
}

/// The indirect value list built from an index buffer and a string
/// pool: a negative index yields no value, a non-negative one the pool
/// entry it points at.
pub open spec fn resolve_strings(data: Seq<i64>, pool: Seq<Seq<char>>) -> Seq<
    Option<Seq<char>>,
> {
    Seq::new(
        data.len(),
        |i: int|
            if data[i] < 0 {
                None
            } else {
                Some(pool[data[i] as int])
            },
    )
}

/// An insertion-ordered attribute dictionary.
#[derive(Debug)]
pub struct AttribDict {
    pub entries: Vec<Attribute>,
}

impl View for AttribDict {
    type V = Seq<AttrView>;

    open spec fn view(&self) -> Seq<AttrView> {
        Seq::new(self.entries@.len(), |i: int| self.entries@[i]@)
    }
}

impl AttribDict {
    /// An empty dictionary.
    pub fn new() -> (r: AttribDict)
        ensures
            r@ == Seq::<AttrView>::empty(),
    {
        let r = AttribDict { entries: Vec::new() };
        proof {
            assert(r@ =~= Seq::<AttrView>::empty());
        }
        r
    }

    /// Number of attributes held.
    pub fn len(&self) -> (r: usize)
        ensures
            r == self@.len(),
    {
        self.entries.len()
    }

    /// The index of the attribute named `name`, if present.
    fn find(&self, name: &String) -> (r: Option<usize>)
        ensures
            match r {
                Some(i) => i < self@.len() && self@[i as int].name == name@ && forall|j: int|
                    0 <= j < i ==> self@[j].name != name@,
                None => !dict_contains(self@, name@),
            },
    {
        let mut i: usize = 0;
        while i < self.entries.len()
            invariant
                i <= self.entries@.len(),
                forall|j: int| 0 <= j < i ==> self@[j].name != name@,
            decreases self.entries@.len() - i,
        {
            if self.entries[i].name == *name {
                return Some(i);
            }
            i = i + 1;
        }
        None
    }

    /// Inserts an attribute, replacing any prior attribute of the same
    /// name in place.
    pub fn insert(&mut self, a: Attribute)
        requires
            names_unique(old(self)@),
        ensures
            final(self)@ == dict_insert(old(self)@, a@),
            names_unique(final(self)@),
    {
        let ghost s = self@;
        let ghost av = a@;
        match self.find(&a.name) {
            Some(i) => {
                self.entries.set(i, a);
                proof {
                    assert(0 <= i as int && (i as int) < s.len() && s[i as int].name == av.name);
                    assert(dict_contains(s, av.name));
                    let k = dict_index_of(s, av.name);
                    assert(0 <= k < s.len() && s[k].name == av.name);
                    assert(k == i as int) by {
                        if k < i as int {
                            assert(s[k].name != s[i as int].name);
                        } else if k > i as int {
                            assert(s[i as int].name != s[k].name);
                        }
                    }
                    assert(self@ =~= s.update(i as int, av));
                    assert forall|x: int, y: int| 0 <= x < y < self@.len() implies self@[x].name
                        != self@[y].name by {
                        assert(self@[x].name == s[x].name);
                        assert(self@[y].name == s[y].name);
                    }
                }
            },
            None => {
                self.entries.push(a);
                proof {
                    assert(self@ =~= s.push(av));
                    assert forall|x: int, y: int| 0 <= x < y < self@.len() implies self@[x].name
                        != self@[y].name by {
                        if y < s.len() {
                            assert(s[x].name != s[y].name);
                        } else {
                            assert(self@[y].name == av.name);
                            assert(s[x].name != av.name);
                        }
                    }
                }
            },
        }
    }

    /// Validates and inserts a direct (numeric) attribute whose flat
    /// buffer must hold `card * tuple_size` scalars.
    pub fn add_direct(
        &mut self,
        card: usize,
        name: &str,
        tuple_size: usize,
        values: AttribValues,
    ) -> (r: Result<(), AttribError>)
        requires
            names_unique(old(self)@),
            !(values@ is Str),
        ensures
            names_unique(final(self)@),
            match r {
                Ok(()) => 1 <= tuple_size <= 16 && values@.len() == card * tuple_size
                    && final(self)@ == dict_insert(
                    old(self)@,
                    (AttrView { name: name@, tuple_size: tuple_size as nat, data: values@ }),
                ),
                Err(AttribError::InvalidTupleSize) => *final(self) == *old(self) && !(1 <= tuple_size
                    <= 16),
                Err(AttribError::CardinalityMismatch) => *final(self) == *old(self) && 1 <= tuple_size
                    <= 16 && values@.len() != card * tuple_size,
                Err(_) => false,
            },
            r is Ok && dict_wf(old(self)@, card as nat) ==> dict_wf(final(self)@, card as nat),
    {
        if tuple_size < 1 || tuple_size > 16 {
            return Err(AttribError::InvalidTupleSize);
        }
        let n = values.scalar_len();
        proof {
            assert((card as u128) * (tuple_size as u128) <= (usize::MAX as u128) * 16)
                by (nonlinear_arith)
                requires
                    (card as u128) <= usize::MAX as u128,
                    (tuple_size as u128) <= 16,
            ;
        }
        if (n as u128) != (card as u128) * (tuple_size as u128) {
            return Err(AttribError::CardinalityMismatch);
        }
        let ghost s = self@;
        let a = Attribute { name: name.to_owned(), tuple_size, values };
        let ghost av = a@;
        self.insert(a);
        proof {
            if dict_wf(s, card as nat) {
                assert(av.wf_for(card as nat));
                lemma_dict_insert_wf(s, av, card as nat);
            }
        }
        Ok(())
    }

    /// Validates and inserts an indirect string attribute built from an
    /// index buffer and a string pool.  Only arity-1 string attributes
    /// are supported; a negative index leaves the element without a
    /// value; a non-negative index out of pool bounds is a checked,
    /// reported error.
    #[verifier::loop_isolation(false)]
    pub fn add_str(
        &mut self,
        card: usize,
        name: &str,
        tuple_size: usize,
        strings: &[&str],
        data: &[i64],
    ) -> (r: Result<(), AttribError>)
        requires
            names_unique(old(self)@),
        ensures
            names_unique(final(self)@),
            match r {
                Ok(()) => tuple_size == 1 && data@.len() == card && str_indices_ok(
                    data@,
                    strings@.len(),
                ) && final(self)@ == dict_insert(
                    old(self)@,
                    (AttrView {
                        name: name@,
                        tuple_size: 1,
                        data: AttrData::Str(resolve_strings(data@, pool_view(strings@))),
                    }),
                ),
                Err(AttribError::InvalidTupleSize) => *final(self) == *old(self) && tuple_size != 1,
                Err(AttribError::CardinalityMismatch) => *final(self) == *old(self) && tuple_size == 1
                    && data@.len() != card,
                Err(AttribError::StringIndexOutOfBounds) => *final(self) == *old(self) && tuple_size
                    == 1 && data@.len() == card && !str_indices_ok(data@, strings@.len()),
                Err(_) => false,
            },
            r is Ok && dict_wf(old(self)@, card as nat) ==> dict_wf(final(self)@, card as nat),
    {
        if tuple_size != 1 {
            return Err(AttribError::InvalidTupleSize);
        }
        if data.len() != card {
            return Err(AttribError::CardinalityMismatch);
        }
        let mut vals: Vec<Option<String>> = Vec::new();
        let mut i: usize = 0;
        while i < data.len()
            invariant
                i <= data@.len(),
                vals@.len() == i,
                forall|j: int| 0 <= j < i ==> data@[j] < strings@.len(),
                forall|j: int|
                    0 <= j < i ==> vals.deep_view()[j] == resolve_strings(
                        data@,
                        pool_view(strings@),
                    )[j],
            decreases data@.len() - i,
        {
            let ghost vpre = vals@;
            let ghost dpre = vals.deep_view();
            let idx = data[i];
            if idx < 0 {
                vals.push(None);
                proof {
                    assert(vals.deep_view()[i as int] is None);
                }
            } else if (idx as u128) >= (strings.len() as u128) {
                return Err(AttribError::StringIndexOutOfBounds);
            } else {
                let s: &str = strings[idx as usize];
                let owned = s.to_owned();
                proof {
                    assert(owned@ == pool_view(strings@)[idx as int]);
                }
                vals.push(Some(owned));
                proof {
                    assert(vals.deep_view()[i as int] == Some(pool_view(strings@)[idx as int]));
                }
            }
            proof {
                assert forall|j: int| 0 <= j < i implies vals.deep_view()[j] == resolve_strings(
                    data@,
                    pool_view(strings@),
                )[j] by {
                    assert(dpre[j] == resolve_strings(data@, pool_view(strings@))[j]);
                    assert(dpre[j] == vpre[j].deep_view());
                    assert(vals@[j] == vpre[j]);
                    assert(vals.deep_view()[j] == vals@[j].deep_view());
                }
            }
            i = i + 1;
        }
        let ghost s0 = self@;
        proof {
            assert(vals.deep_view() =~= resolve_strings(data@, pool_view(strings@)));
        }
        let a = Attribute { name: name.to_owned(), tuple_size: 1, values: AttribValues::Str(vals) };
        let ghost av = a@;
        self.insert(a);
        proof {
            if dict_wf(s0, card as nat) {
                assert(av.wf_for(card as nat));
                lemma_dict_insert_wf(s0, av, card as nat);
            }
        }
        Ok(())
    }
}

} // verus!
