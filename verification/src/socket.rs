//! The container of the plugins that fill one interface's socket.
use vstd::prelude::*;

use crate::ids::PluginId;

verus! {

/// Container for plugin instances matching an interface's cardinality.
///
/// The variant used reflects the interface's cardinality constraint:
/// - `AtMostOne` - Zero or one plugin allowed
/// - `ExactlyOne` - Exactly one plugin required
/// - `AtLeastOne` - One or more plugins required
/// - `Any` - Zero or more plugins allowed
///
/// The many-plugin variants hold `(id, plugin)` entries in which no id occurs
/// twice; `wf` states that, and that `AtLeastOne` is not empty.
#[derive(Debug)]
pub enum Socket<T> {
    AtMostOne(Option<T>),
    ExactlyOne(T),
    AtLeastOne(Vec<(PluginId, T)>),
    Any(Vec<(PluginId, T)>),
}

/// No plugin id occurs twice among the entries.
pub open spec fn ids_distinct<T>(entries: Seq<(PluginId, T)>) -> bool {
    forall|i: int, j: int| 0 <= i < j < entries.len() ==> entries[i].0@ != entries[j].0@
}

/// Two entry lists hold the same ids in the same places, and each pair of
/// values at one place is related by `rel`.
pub open spec fn entries_related<T, N>(
    a: Seq<(PluginId, T)>,
    b: Seq<(PluginId, N)>,
    rel: spec_fn(T, N) -> bool,
) -> bool {
    &&& a.len() == b.len()
    &&& forall|i: int| #![trigger b[i]] 0 <= i < a.len() ==> b[i].0@ == a[i].0@ && rel(a[i].1, b[i].1)
}

/// `b` has the variant of `a`, and each plugin of `b` is related by `rel` to
/// the plugin of `a` in the same place.
pub open spec fn sockets_related<T, N>(a: Socket<T>, b: Socket<N>, rel: spec_fn(T, N) -> bool) -> bool {
    match (a, b) {
        (Socket::AtMostOne(None), Socket::AtMostOne(None)) => true,
        (Socket::AtMostOne(Some(x)), Socket::AtMostOne(Some(y))) => rel(x, y),
        (Socket::ExactlyOne(x), Socket::ExactlyOne(y)) => rel(x, y),
        (Socket::AtLeastOne(v), Socket::AtLeastOne(w)) => entries_related(v@, w@, rel),
        (Socket::Any(v), Socket::Any(w)) => entries_related(v@, w@, rel),
        _ => false,
    }
}

/// Whether two sockets have the same variant.
pub open spec fn same_variant<T, N>(a: Socket<T>, b: Socket<N>) -> bool {
    match (a, b) {
        (Socket::AtMostOne(_), Socket::AtMostOne(_)) => true,
        (Socket::ExactlyOne(_), Socket::ExactlyOne(_)) => true,
        (Socket::AtLeastOne(_), Socket::AtLeastOne(_)) => true,
        (Socket::Any(_), Socket::Any(_)) => true,
        _ => false,
    }
}

impl<T> Socket<T> {
    /// The many-plugin variants never hold one id twice, and an `AtLeastOne`
    /// socket holds at least one plugin.
    pub open spec fn wf(&self) -> bool {
        match self {
            Socket::AtLeastOne(v) => ids_distinct(v@) && v@.len() >= 1,
            Socket::Any(v) => ids_distinct(v@),
            _ => true,
        }
    }

    /// How many plugins the socket holds.
    pub open spec fn count(&self) -> nat {
        match self {
            Socket::AtMostOne(None) => 0,
            Socket::AtMostOne(Some(_)) => 1,
            Socket::ExactlyOne(_) => 1,
            Socket::AtLeastOne(v) => v@.len(),
            Socket::Any(v) => v@.len(),
        }
    }

    /// The ids of the plugins of a many-plugin socket, in order; empty for the
    /// single-plugin variants, whose plugins carry their id themselves.
    pub open spec fn ids(&self) -> Seq<Seq<char>> {
        match self {
            Socket::AtLeastOne(v) => v@.map_values(|e: (PluginId, T)| e.0@),
            Socket::Any(v) => v@.map_values(|e: (PluginId, T)| e.0@),
            _ => Seq::empty(),
        }
    }

    /// The entries of a many-plugin socket; empty otherwise.
    pub open spec fn entries(&self) -> Seq<(PluginId, T)> {
        match self {
            Socket::AtLeastOne(v) => v@,
            Socket::Any(v) => v@,
            _ => Seq::empty(),
        }
    }

    /// The plugins, in order, without their ids.
    pub open spec fn plugins(&self) -> Seq<T> {
        match self {
            Socket::AtMostOne(None) => Seq::empty(),
            Socket::AtMostOne(Some(t)) => seq![*t],
            Socket::ExactlyOne(t) => seq![*t],
            Socket::AtLeastOne(v) => entry_values(v@),
            Socket::Any(v) => entry_values(v@),
        }
    }

    /// Whether the socket is one of the many-plugin variants.
    pub open spec fn is_keyed(&self) -> bool {
        self is AtLeastOne || self is Any
    }
}

/// Applies `f` to each value of `entries`, keeping ids and order.
fn map_entries<T, N, F: Fn(&T) -> N>(entries: &Vec<(PluginId, T)>, f: &F) -> (r: Vec<(PluginId, N)>)
    requires
        forall|t: &T| call_requires(*f, (t,)),
    ensures
        entries_related(entries@, r@, |t: T, n: N| call_ensures(*f, (&t,), n)),
{
    let mut out: Vec<(PluginId, N)> = Vec::new();
    let mut i: usize = 0;
    while i < entries.len()
        invariant
            i <= entries@.len(),
            out@.len() == i,
            forall|t: &T| call_requires(*f, (t,)),
            forall|k: int|
                0 <= k < i ==> #[trigger] out@[k].0@ == entries@[k].0@ && call_ensures(
                    *f,
                    (&entries@[k].1,),
                    out@[k].1,
                ),
        decreases entries@.len() - i,
    {
        let id = entries[i].0.duplicate();
        let n = f(&entries[i].1);
        out.push((id, n));
        i = i + 1;
    }
    out
}

/// Applies `f` to each value of `entries`, taking them by value and keeping
/// ids and order.
fn map_entries_owned<T, N, F: Fn(T) -> N>(entries: Vec<(PluginId, T)>, f: &F) -> (r: Vec<(PluginId, N)>)
    requires
        forall|t: T| call_requires(*f, (t,)),
    ensures
        entries_related(entries@, r@, |t: T, n: N| call_ensures(*f, (t,), n)),
{
    let ghost original = entries@;
    let mut rest = entries;
    let mut out: Vec<(PluginId, N)> = Vec::new();
    while rest.len() > 0
        invariant
            rest@.len() <= original.len(),
            rest@ == original.subrange(0, rest@.len() as int),
            out@.len() == original.len() - rest@.len(),
            forall|t: T| call_requires(*f, (t,)),
            forall|k: int|
                #![trigger out@[k]]
                0 <= k < out@.len() ==> out@[k].0@ == original[rest@.len() + k].0@
                    && call_ensures(*f, (original[rest@.len() + k].1,), out@[k].1),
        decreases rest@.len(),
    {
        let (id, t) = rest.pop().unwrap();
        let n = f(t);
        out.insert(0, (id, n));
    }
    out
}

impl<T> Socket<T> {
    /// Transforms each plugin value by reference, preserving cardinality.
    pub fn map<N, F: Fn(&T) -> N>(&self, map: F) -> (r: Socket<N>)
        requires
            forall|t: &T| call_requires(map, (t,)),
        ensures
            sockets_related(*self, r, |t: T, n: N| call_ensures(map, (&t,), n)),
    {
        match self {
            Socket::AtMostOne(None) => Socket::AtMostOne(None),
            Socket::AtMostOne(Some(t)) => Socket::AtMostOne(Some(map(t))),
            Socket::ExactlyOne(t) => Socket::ExactlyOne(map(t)),
            Socket::AtLeastOne(v) => Socket::AtLeastOne(map_entries(v, &map)),
            Socket::Any(v) => Socket::Any(map_entries(v, &map)),
        }
    }

    /// Transforms each plugin value by ownership, preserving cardinality.
    pub fn map_mut<N, F: Fn(T) -> N>(self, map: F) -> (r: Socket<N>)
        requires
            forall|t: T| call_requires(map, (t,)),
        ensures
            sockets_related(self, r, |t: T, n: N| call_ensures(map, (t,), n)),
    {
        match self {
            Socket::AtMostOne(None) => Socket::AtMostOne(None),
            Socket::AtMostOne(Some(t)) => Socket::AtMostOne(Some(map(t))),
            Socket::ExactlyOne(t) => Socket::ExactlyOne(map(t)),
            Socket::AtLeastOne(v) => Socket::AtLeastOne(map_entries_owned(v, &map)),
            Socket::Any(v) => Socket::Any(map_entries_owned(v, &map)),
        }
    }
}

/// A socket's plugins gathered by how many there may be: the value a
/// socket is handed to a plugin as.
#[derive(Debug)]
pub enum Collected<T> {
    /// The plugin of an `AtMostOne` socket, if it has one.
    Optional(Option<T>),
    /// The plugin of an `ExactlyOne` socket.
    Single(T),
    /// The plugins of an `AtLeastOne` or `Any` socket, in entry order.
    List(Vec<T>),
}

/// The values of `entries`, in order.
pub open spec fn entry_values<T>(entries: Seq<(PluginId, T)>) -> Seq<T> {
    entries.map_values(|e: (PluginId, T)| e.1)
}

/// Drops the ids of `entries`, keeping the values in order.
fn into_values<T>(entries: Vec<(PluginId, T)>) -> (r: Vec<T>)
    ensures
        r@ == entry_values(entries@),
{
    let ghost original = entries@;
    let mut rest = entries;
    let mut out: Vec<T> = Vec::new();
    while rest.len() > 0
        invariant
            rest@.len() <= original.len(),
            rest@ == original.subrange(0, rest@.len() as int),
            out@ == entry_values(original.subrange(rest@.len() as int, original.len() as int)),
        decreases rest@.len(),
    {
        let ghost k = rest@.len() - 1;
        let (_, t) = rest.pop().unwrap();
        out.insert(0, t);
        assert(original.subrange(k, original.len() as int) =~= seq![original[k]]
            + original.subrange(k + 1, original.len() as int));
    }
    out
}

/// Whether `read_id` may give `outcome` when it reads the id of `plugin`.
pub open spec fn reads_id<T, E, F: Fn(&T) -> Result<PluginId, E>>(
    read_id: F,
    plugin: T,
    outcome: Result<PluginId, E>,
) -> bool {
    call_ensures(read_id, (&plugin,), outcome)
}

impl<T> Socket<T> {
    /// The plugins in a `Collected`, by the socket's variant: optional for
    /// `AtMostOne`, single for `ExactlyOne`, a list of the values in entry
    /// order for the others.
    pub fn into_collected(self) -> (r: Collected<T>)
        ensures
            match self {
                Socket::AtMostOne(o) => r == Collected::Optional(o),
                Socket::ExactlyOne(t) => r == Collected::Single(t),
                Socket::AtLeastOne(v) => r matches Collected::List(l) && l@ == entry_values(v@),
                Socket::Any(v) => r matches Collected::List(l) && l@ == entry_values(v@),
            },
    {
        match self {
            Socket::AtMostOne(o) => Collected::Optional(o),
            Socket::ExactlyOne(t) => Collected::Single(t),
            Socket::AtLeastOne(v) => Collected::List(into_values(v)),
            Socket::Any(v) => Collected::List(into_values(v)),
        }
    }

    /// Looks up a plugin instance by ID within this socket.
    ///
    /// Returns `Ok(None)` if no plugin with the given ID exists in this
    /// socket. The plugin of a single-plugin socket carries its id itself:
    /// `read_id` reads it, and its error (such as a poisoned lock) is
    /// returned as is.
    pub fn get<'a, E, F: Fn(&T) -> Result<PluginId, E>>(&'a self, id: &PluginId, read_id: F) -> (r:
        Result<Option<&'a T>, E>)
        requires
            forall|t: &T| call_requires(read_id, (t,)),
        ensures
            match *self {
                Socket::AtMostOne(None) => r matches Ok(None),
                Socket::AtMostOne(Some(p)) => exists|o: Result<PluginId, E>|
                    #[trigger] reads_id(read_id, p, o) && match o {
                        Ok(pid) => r matches Ok(found) && found_value(found) == (if pid@ == id@ {
                            Some(p)
                        } else {
                            None
                        }),
                        Err(e) => r == Err::<Option<&T>, E>(e),
                    },
                Socket::ExactlyOne(p) => exists|o: Result<PluginId, E>|
                    #[trigger] reads_id(read_id, p, o) && match o {
                        Ok(pid) => r matches Ok(found) && found_value(found) == (if pid@ == id@ {
                            Some(p)
                        } else {
                            None
                        }),
                        Err(e) => r == Err::<Option<&T>, E>(e),
                    },
                Socket::AtLeastOne(v) => r matches Ok(found) && found_value(found) == find_entry(
                    v@,
                    id@,
                ),
                Socket::Any(v) => r matches Ok(found) && found_value(found) == find_entry(v@, id@),
            },
    {
        match self {
            Socket::AtMostOne(None) => Ok(None),
            Socket::AtMostOne(Some(plugin)) => {
                let read = read_id(plugin);
                assert(reads_id(read_id, *plugin, read));
                match read {
                    Ok(pid) => if pid.same_as(id) {
                        Ok(Some(plugin))
                    } else {
                        Ok(None)
                    },
                    Err(e) => Err(e),
                }
            },
            Socket::ExactlyOne(plugin) => {
                let read = read_id(plugin);
                assert(reads_id(read_id, *plugin, read));
                match read {
                    Ok(pid) => if pid.same_as(id) {
                        Ok(Some(plugin))
                    } else {
                        Ok(None)
                    },
                    Err(e) => Err(e),
                }
            },
            Socket::AtLeastOne(v) => Ok(lookup(v, id)),
            Socket::Any(v) => Ok(lookup(v, id)),
        }
    }
}

/// The value behind a found reference.
pub open spec fn found_value<T>(found: Option<&T>) -> Option<T> {
    match found {
        Some(p) => Some(*p),
        None => None,
    }
}

/// The value of the first entry whose id is `id`, if any.
pub open spec fn find_entry<T>(entries: Seq<(PluginId, T)>, id: Seq<char>) -> Option<T>
    decreases entries.len(),
{
    if entries.len() == 0 {
        None
    } else if entries[0].0@ == id {
        Some(entries[0].1)
    } else {
        find_entry(entries.drop_first(), id)
    }
}

/// The value of the first entry of `entries` whose id is `id`.
fn lookup<'a, T>(entries: &'a Vec<(PluginId, T)>, id: &PluginId) -> (r: Option<&'a T>)
    ensures
        found_value(r) == find_entry(entries@, id@),
{
    let mut i: usize = 0;
    assert(entries@.skip(0) =~= entries@);
    while i < entries.len()
        invariant
            i <= entries@.len(),
            find_entry(entries@, id@) == find_entry(entries@.skip(i as int), id@),
        decreases entries@.len() - i,
    {
        assert(entries@.skip(i as int).drop_first() =~= entries@.skip(i + 1));
        if entries[i].0.same_as(id) {
            return Some(&entries[i].1);
        }
        i = i + 1;
    }
    None
}

} // verus!
