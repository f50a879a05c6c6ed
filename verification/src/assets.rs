//! Identifier bookkeeping for shared assets.
//!
//! Loaded textures and models are addressed by dense integer ids handed
//! out in insertion order; a name can be attached to an id, and a later
//! insertion under the same name shadows the earlier one. Names are
//! stored with backslashes normalized to forward slashes, so assets
//! loaded from Windows-style paths are found under one spelling. The
//! loading itself (files, decoding, GPU upload) happens outside; only the
//! id and name bookkeeping is modeled and verified here.

use vstd::prelude::*;

verus! {

use vstd::std_specs::convert::FromSpec;
use vstd::string::StrSliceExecFns;

/// A name as the storage keeps it: every backslash replaced by a forward
/// slash, every other character unchanged.
pub open spec fn normalized_name(s: Seq<char>) -> Seq<char> {
    s.map_values(|c: char| if c == '\\' { '/' } else { c })
}

/// Relies on String::push: appends the given character to the end of the
/// string.
#[verifier::external_body]
fn push_char(s: &mut String, c: char)
    ensures
        final(s)@ == old(s)@.push(c),
{
    s.push(c);
}

/// Builds the stored form of a name: backslashes become forward slashes.
fn normalize_name(name: &str) -> (r: String)
    ensures
        r@ =~= normalized_name(name@),
{
    let mut out = String::new();
    let n = name.unicode_len();
    let mut i: usize = 0;
    while i < n
        invariant
            n == name@.len(),
            i <= n,
            out@.len() == i,
            forall|j: int| 0 <= j < i ==> #[trigger] out@[j] == normalized_name(name@)[j],
        decreases n - i,
    {
        let c = name.get_char(i);
        let mapped: char = if c == '\\' {
            '/'
        } else {
            c
        };
        push_char(&mut out, mapped);
        i = i + 1;
    }
    out
}

/// Identifies a loaded texture: its position in the texture list.
#[derive(Debug, Clone, Copy, Hash, PartialEq, Eq, Structural)]
pub struct TextureId(pub usize);

impl From<usize> for TextureId {
    /// Wraps a raw texture index.
    fn from(value: usize) -> Self {
        TextureId(value)
    }
}

impl vstd::std_specs::convert::FromSpecImpl<usize> for TextureId {
    open spec fn obeys_from_spec() -> bool {
        true
    }

    open spec fn from_spec(v: usize) -> TextureId {
        TextureId(v)
    }
}

impl From<TextureId> for usize {
    /// Unwraps the raw texture index.
    fn from(value: TextureId) -> usize {
        value.0
    }
}

impl vstd::std_specs::convert::FromSpecImpl<TextureId> for usize {
    open spec fn obeys_from_spec() -> bool {
        true
    }

    open spec fn from_spec(v: TextureId) -> usize {
        v.0
    }
}

/// Identifies a loaded model: its position in the model list.
#[derive(Debug, Clone, Copy, Hash, PartialEq, Eq, Structural)]
pub struct ModelId(pub usize);

impl From<usize> for ModelId {
    /// Wraps a raw model index.
    fn from(value: usize) -> Self {
        ModelId(value)
    }
}

impl vstd::std_specs::convert::FromSpecImpl<usize> for ModelId {
    open spec fn obeys_from_spec() -> bool {
        true
    }

    open spec fn from_spec(v: usize) -> ModelId {
        ModelId(v)
    }
}

impl From<ModelId> for usize {
    /// Unwraps the raw model index.
    fn from(value: ModelId) -> usize {
        value.0
    }
}

impl vstd::std_specs::convert::FromSpecImpl<ModelId> for usize {
    open spec fn obeys_from_spec() -> bool {
        true
    }

    open spec fn from_spec(v: ModelId) -> usize {
        v.0
    }
}

/// The models every asset set contains even with no model folder.
#[derive(Debug, Clone, Copy, PartialEq, Eq, Structural)]
pub enum DefaultModel {
    Square,
}

impl DefaultModel {
    /// The name the default model is stored under.
    pub fn name(&self) -> (r: &'static str)
        ensures
            r@ == "Square"@,
    {
        "Square"
    }
}

/// The textures every asset set contains even with no texture folder.
#[derive(Debug, Clone, Copy, PartialEq, Eq, Structural)]
pub enum DefaultTexture {
    Solid,
}

impl DefaultTexture {
    /// The name the default texture is stored under.
    pub fn name(&self) -> (r: &'static str)
        ensures
            r@ == "Solid"@,
    {
        "Solid"
    }
}

/// A value paired with the name it was loaded under.
pub struct NamedValue<T> {
    pub name: String,
    pub value: T,
}

impl<T> NamedValue<T> {
    /// Transforms the value and keeps the name.
    pub fn map<U, F: FnOnce(T) -> U>(self, f: F) -> (r: NamedValue<U>)
        requires
            call_requires(f, (self.value,)),
        ensures
            r.name == self.name,
            call_ensures(f, (self.value,), r.value),
    {
        let NamedValue { name, value } = self;
        NamedValue { name, value: f(value) }
    }
}

/// The distinct names of an entry list, in first-occurrence order: a
/// name that appears more than once is kept only where it first appeared.
pub open spec fn distinct_names<I>(entries: Seq<(Seq<char>, I)>) -> Seq<Seq<char>>
    decreases entries.len(),
{
    if entries.len() == 0 {
        Seq::empty()
    } else {
        let prefix = distinct_names(entries.drop_last());
        if prefix.contains(entries.last().0) {
            prefix
        } else {
            prefix.push(entries.last().0)
        }
    }
}

/// The distinct names are exactly the names of the entries, each once:
/// every one of them names some entry, every entry's name is among them,
/// and none repeats.
pub proof fn lemma_distinct_names<I>(entries: Seq<(Seq<char>, I)>)
    ensures
        forall|a: int|
            0 <= a < distinct_names(entries).len() ==> exists|j: int|
                0 <= j < entries.len() && #[trigger] distinct_names(entries)[a] == entries[j].0,
        forall|j: int|
            0 <= j < entries.len() ==> distinct_names(entries).contains(
                (#[trigger] entries[j]).0,
            ),
        forall|a: int, b: int|
            0 <= a < b < distinct_names(entries).len() ==> #[trigger] distinct_names(entries)[a]
                != #[trigger] distinct_names(entries)[b],
    decreases entries.len(),
{
    if entries.len() > 0 {
        let shorter = entries.drop_last();
        lemma_distinct_names(shorter);
        let prefix = distinct_names(shorter);
        let fo = distinct_names(entries);
        let last_name = entries.last().0;
        assert forall|a: int| 0 <= a < fo.len() implies exists|j: int|
            0 <= j < entries.len() && #[trigger] fo[a] == entries[j].0 by {
            if a < prefix.len() {
                let j = choose|j: int|
                    0 <= j < shorter.len() && #[trigger] prefix[a] == shorter[j].0;
                assert(fo[a] == entries[j].0);
            } else {
                assert(fo[a] == entries[entries.len() - 1].0);
            }
        }
        assert forall|j: int| 0 <= j < entries.len() implies fo.contains(
            (#[trigger] entries[j]).0,
        ) by {
            if j < entries.len() - 1 {
                let a = choose|a: int| 0 <= a < prefix.len() && prefix[a] == shorter[j].0;
                assert(fo[a] == entries[j].0);
            } else {
                if prefix.contains(last_name) {
                    let a = choose|a: int| 0 <= a < prefix.len() && prefix[a] == last_name;
                    assert(fo[a] == last_name);
                } else {
                    assert(fo[prefix.len() as int] == last_name);
                }
            }
        }
        assert forall|a: int, b: int| 0 <= a < b < fo.len() implies #[trigger] fo[a]
            != #[trigger] fo[b] by {
            if b < prefix.len() {
            } else {
                assert(fo[b] == last_name);
                if prefix.contains(last_name) {
                } else {
                    assert(fo[a] == prefix[a]);
                    if prefix[a] == last_name {
                        assert(prefix.contains(last_name));
                    }
                }
            }
        }
    }
}

/// Dense storage of values of type `T` under ids of type `I`, with names
/// attached to ids; a later entry under a name shadows an earlier one.
pub struct IdsStorage<I, T> {
    ids: Vec<(String, I)>,
    data: Vec<T>,
}

impl<I, T> IdsStorage<I, T> {
    /// The name-to-id entries, in insertion order.
    pub closed spec fn entries(self) -> Seq<(Seq<char>, I)> {
        self.ids@.map_values(|p: (String, I)| (p.0@, p.1))
    }

    /// The stored values, in id order.
    pub closed spec fn data_spec(self) -> Seq<T> {
        self.data@
    }

    /// An empty storage.
    pub fn new() -> (r: Self)
        ensures
            r.entries() =~= Seq::<(Seq<char>, I)>::empty(),
            r.data_spec() =~= Seq::<T>::empty(),
    {
        IdsStorage { ids: Vec::new(), data: Vec::new() }
    }

    /// Stores a named value: the value gets the next dense id, and the
    /// normalized name (backslashes replaced by forward slashes) maps to
    /// that id, shadowing any earlier entry under it.
    pub fn insert(&mut self, item: (String, T)) -> (r: I) where I: From<usize>
        requires
            I::obeys_from_spec(),
        ensures
            r == I::from_spec(old(self).data_spec().len() as usize),
            final(self).data_spec() =~= old(self).data_spec().push(item.1),
            final(self).entries() =~= old(self).entries().push((normalized_name(item.0@), r)),
    {
        let id: I = I::from(self.data.len());
        let stored: I = I::from(self.data.len());
        let (name, value) = item;
        let name = normalize_name(name.as_str());
        self.ids.push((name, stored));
        self.data.push(value);
        proof {
            assert(self.ids@.map_values(|p: (String, I)| (p.0@, p.1)) =~= old(
                self,
            ).ids@.map_values(|p: (String, I)| (p.0@, p.1)).push((normalized_name(item.0@), id)));
        }
        id
    }

    /// Stores an unnamed value under the next dense id.
    pub fn push(&mut self, item: T) -> (r: I) where I: From<usize>
        ensures
            I::obeys_from_spec() ==> r == I::from_spec(old(self).data_spec().len() as usize),
            final(self).data_spec() =~= old(self).data_spec().push(item),
            final(self).entries() == old(self).entries(),
    {
        let id: I = I::from(self.data.len());
        self.data.push(item);
        proof {
            assert(self.ids@.map_values(|p: (String, I)| (p.0@, p.1)) =~= old(
                self,
            ).ids@.map_values(|p: (String, I)| (p.0@, p.1)));
        }
        id
    }

    /// Looks a name up: the id of the latest entry under it, if any.
    pub fn get_id(&self, name: &String) -> (r: Option<&I>)
        ensures
            r is Some <==> exists|j: int|
                0 <= j < self.entries().len() && (#[trigger] self.entries()[j]).0 == name@,
            r matches Some(id) ==> exists|j: int|
                0 <= j < self.entries().len() && (#[trigger] self.entries()[j]).0 == name@ && *id
                    == self.entries()[j].1 && forall|k: int|
                    j < k < self.entries().len() ==> (#[trigger] self.entries()[k]).0 != name@,
    {
        let mut i: usize = self.ids.len();
        while i > 0
            invariant
                i <= self.ids@.len(),
                forall|k: int|
                    i <= k < self.entries().len() ==> (#[trigger] self.entries()[k]).0 != name@,
            decreases i,
        {
            i = i - 1;
            proof {
                assert(self.entries()[i as int] == (self.ids@[i as int].0@, self.ids@[
                    i as int].1));
            }
            if self.ids[i].0 == *name {
                return Some(&self.ids[i].1);
            }
        }
        None
    }

    /// The names that have entries, each name once, in first-insertion
    /// order: exactly the distinct names of the entry list.
    pub fn keys(&self) -> (r: Vec<String>)
        ensures
            r@.map_values(|s: String| s@) =~= distinct_names(self.entries()),
    {
        let mut out: Vec<String> = Vec::new();
        let mut i: usize = 0;
        while i < self.ids.len()
            invariant
                i <= self.ids@.len(),
                out@.map_values(|s: String| s@) =~= distinct_names(
                    self.entries().subrange(0, i as int),
                ),
            decreases self.ids@.len() - i,
        {
            proof {
                assert(self.entries()[i as int] == (self.ids@[i as int].0@, self.ids@[
                    i as int].1));
            }
            let mut seen = false;
            let mut k: usize = 0;
            while k < out.len()
                invariant
                    k <= out@.len(),
                    i < self.ids@.len(),
                    seen <==> exists|a: int|
                        0 <= a < k && (#[trigger] out@[a])@ == self.ids@[i as int].0@,
                decreases out@.len() - k,
            {
                if out[k] == self.ids[i].0 {
                    seen = true;
                }
                k = k + 1;
            }
            let ghost prev = out@;
            let ghost prev_views = prev.map_values(|s: String| s@);
            let ghost sub1 = self.entries().subrange(0, i + 1);
            proof {
                assert(sub1.drop_last() =~= self.entries().subrange(0, i as int));
                assert(sub1.last() == self.entries()[i as int]);
            }
            if !seen {
                out.push(self.ids[i].0.clone());
                proof {
                    assert forall|a: int| 0 <= a < prev_views.len() implies prev_views[a]
                        != self.entries()[i as int].0 by {
                        assert(prev_views[a] == prev[a]@);
                    }
                    assert(!prev_views.contains(self.entries()[i as int].0));
                    assert(out@.map_values(|s: String| s@) =~= prev_views.push(
                        self.entries()[i as int].0,
                    ));
                }
            } else {
                proof {
                    let iname = self.ids@[i as int].0@;
                    let a = choose|a: int|
                        0 <= a < prev.len() && (#[trigger] prev[a])@ == iname;
                    assert(prev_views[a] == self.entries()[i as int].0);
                    assert(prev_views.contains(self.entries()[i as int].0));
                }
            }
            i = i + 1;
        }
        proof {
            assert(self.entries().subrange(0, self.entries().len() as int) =~= self.entries());
        }
        out
    }

    /// Mutable access to the stored values; the names and ids stay as
    /// they are, whatever the caller writes through the borrow.
    pub fn iter_mut(&mut self) -> (r: &mut Vec<T>)
        ensures
            (*r)@ == old(self).data_spec(),
            final(self).data_spec() == final(r)@,
            final(self).entries() == old(self).entries(),
    {
        &mut self.data
    }

    /// The stored values, in id order.
    pub fn values(&self) -> (r: &Vec<T>)
        ensures
            r@ == self.data_spec(),
    {
        &self.data
    }
}

} // verus!
