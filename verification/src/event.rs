use vstd::prelude::*;
use crate::registry::Registry;

verus! {

/// Which devices an event is delivered to.
#[derive(Clone, Copy, PartialEq, Eq, Structural, Debug)]
pub enum EventTarget {
    /// Every device but the one that sent the event.
    Everyone,
    /// Every device, the sender included.
    EveryoneIncludeSender,
    /// Only the device that sent the event.
    SenderOnly,
    /// No device: the event is for the manager alone.
    ManagerOnly,
}

/// The name of a target, as events show it.
pub open spec fn target_label(t: EventTarget) -> Seq<char> {
    match t {
        EventTarget::Everyone => "Everyone"@,
        EventTarget::EveryoneIncludeSender => "EveryoneIncludeSender"@,
        EventTarget::SenderOnly => "SenderOnly"@,
        EventTarget::ManagerOnly => "ManagerOnly"@,
    }
}

impl EventTarget {
    /// The name of the target, as events show it.
    pub fn label(&self) -> (r: String)
        ensures
            r@ == target_label(*self),
    {
        match self {
            EventTarget::Everyone => String::from_str("Everyone"),
            EventTarget::EveryoneIncludeSender => String::from_str("EveryoneIncludeSender"),
            EventTarget::SenderOnly => String::from_str("SenderOnly"),
            EventTarget::ManagerOnly => String::from_str("ManagerOnly"),
        }
    }
}

/// The payload of an event: text values under distinct text keys.
#[derive(Debug)]
pub struct EventData {
    entries: Registry<String>,
}

impl View for EventData {
    type V = Map<Seq<char>, Seq<char>>;

    /// The payload as a map from keys to values.
    closed spec fn view(&self) -> Map<Seq<char>, Seq<char>> {
        Map::new(
            |k: Seq<char>| self.entries.as_map().contains_key(k),
            |k: Seq<char>| self.entries.as_map()[k]@,
        )
    }
}

impl EventData {
    /// The key-value pairs in the order in which their keys were first
    /// stored.
    pub closed spec fn pairs(&self) -> Seq<(Seq<char>, Seq<char>)> {
        Seq::new(
            self.entries.names().len(),
            |i: int| (self.entries.names()[i], self.entries.values()[i]@),
        )
    }

    /// An empty payload.
    pub fn new() -> (d: Self)
        ensures
            d@ == Map::<Seq<char>, Seq<char>>::empty(),
            d.pairs() == Seq::<(Seq<char>, Seq<char>)>::empty(),
    {
        let d = EventData { entries: Registry::new() };
        assert(d@ =~= Map::<Seq<char>, Seq<char>>::empty());
        assert(d.pairs() =~= Seq::<(Seq<char>, Seq<char>)>::empty());
        d
    }

    /// The number of keys.
    pub fn len(&self) -> (n: usize)
        ensures
            n == self@.len(),
    {
        let n: usize = self.entries.len();
        assert(self@.dom() =~= self.entries.as_map().dom());
        n
    }

    /// The key-value pairs, each key once, in the order of first insertion.
    pub fn to_pairs(&self) -> (r: Vec<(String, String)>)
        ensures
            r.len() == self.pairs().len(),
            forall|i: int| 0 <= i < r.len() ==> (r[i].0@, r[i].1@) == #[trigger] self.pairs()[i],
            r.len() == self@.len(),
            forall|i: int|
                0 <= i < r.len() ==> self@.contains_key((#[trigger] r[i]).0@) && self@[r[i].0@]
                    == r[i].1@,
            forall|i: int, j: int| 0 <= i < j < r.len() ==> r[i].0@ != r[j].0@,
    {
        let count: usize = self.entries.len();
        assert(self@.dom() =~= self.entries.as_map().dom());
        let mut pairs: Vec<(String, String)> = Vec::new();
        let mut i: usize = 0;
        while i < count
            invariant
                count == self.entries.names().len(),
                count == self.entries.values().len(),
                self.entries.names().no_duplicates(),
                i <= count,
                pairs.len() == i,
                forall|j: int| 0 <= j < i ==> #[trigger] pairs[j].0@ == self.entries.names()[j]
                    && self@.contains_key(pairs[j].0@) && self@[pairs[j].0@] == pairs[j].1@
                    && pairs[j].1@ == self.entries.values()[j]@,
            decreases count - i,
        {
            let (key, value) = self.entries.entry_at(i);
            let k = key.clone();
            let v = value.clone();
            assert(v@ == self.entries.values()[i as int]@);
            assert(k@ == self.entries.names()[i as int]);
            let ghost before = pairs@;
            pairs.push((k, v));
            assert(pairs[i as int].1@ == self.entries.values()[i as int]@);
            assert forall|j: int| 0 <= j < i + 1 implies #[trigger] pairs[j].0@ == self.entries.names()[j]
                && self@.contains_key(pairs[j].0@) && self@[pairs[j].0@] == pairs[j].1@
                && pairs[j].1@ == self.entries.values()[j]@ by {
                if j < i {
                    assert(pairs[j] == before[j]);
                    assert(before[j].0@ == self.entries.names()[j]);
                }
            }
            i = i + 1;
        }
        proof {
            assert forall|a: int, b: int| 0 <= a < b < pairs.len() implies pairs[a].0@ != pairs[b].0@ by {
                assert(pairs[a].0@ == self.entries.names()[a]);
                assert(pairs[b].0@ == self.entries.names()[b]);
            }
        }
        pairs
    }

    /// The value stored under `key`, if any.
    pub fn get(&self, key: &str) -> (r: Option<&String>)
        ensures
            r is Some <==> self@.contains_key(key@),
            r matches Some(v) ==> v@ == self@[key@],
    {
        self.entries.get(key)
    }

    /// Stores `value` under `key`, replacing the value that was there; a
    /// key already present keeps its place among the pairs, a new one comes
    /// last.
    pub fn insert(&mut self, key: String, value: String)
        ensures
            final(self)@ == old(self)@.insert(key@, value@),
            old(self)@.contains_key(key@) ==> final(self).pairs() == old(self).pairs().map_values(
                |p: (Seq<char>, Seq<char>)| if p.0 == key@ { (p.0, value@) } else { p },
            ),
            !old(self)@.contains_key(key@) ==> final(self).pairs() == old(self).pairs().push(
                (key@, value@),
            ),
    {
        let ghost before = self@;
        proof {
            self.entries.lemma_lengths();
        }
        let ghost before_pairs = self.pairs();
        let ghost old_names = self.entries.names();
        let ghost k = key@;
        let ghost v = value@;
        self.entries.insert(key, value);
        assert(self@ =~= before.insert(k, v));
        proof {
            if before.contains_key(k) {
                assert(old_names.contains(k));
                assert(self.entries.names() == old_names);
                assert(self.pairs() =~= before_pairs.map_values(
                    |p: (Seq<char>, Seq<char>)| if p.0 == k { (p.0, v) } else { p },
                ));
            } else {
                assert(!old_names.contains(k));
                assert(self.pairs() =~= before_pairs.push((k, v)));
            }
        }
    }
}

impl Clone for EventData {
    /// A copy holding the same keys and values, in the same order.
    fn clone(&self) -> (r: Self)
        ensures
            r@ == self@,
            r.pairs() == self.pairs(),
    {
        let count: usize = self.entries.len();
        let mut copy = EventData::new();
        let mut i: usize = 0;
        assert(self.pairs().take(0) =~= Seq::<(Seq<char>, Seq<char>)>::empty());
        while i < count
            invariant
                count == self.entries.names().len(),
                count == self.entries.values().len(),
                self.entries.names().no_duplicates(),
                i <= count,
                copy.pairs() == self.pairs().take(i as int),
                forall|k: Seq<char>| #[trigger] copy@.contains_key(k) <==> exists|j: int|
                    0 <= j < i && self.entries.names()[j] == k,
                forall|k: Seq<char>| #[trigger] copy@.contains_key(k) ==> self@.contains_key(k)
                    && copy@[k] == self@[k],
            decreases count - i,
        {
            let (key, value) = self.entries.entry_at(i);
            let ghost name = self.entries.names()[i as int];
            let k = key.clone();
            let v = value.clone();
            proof {
                if copy@.contains_key(name) {
                    let j: int = choose|j: int| 0 <= j < i && self.entries.names()[j] == name;
                    assert(self.entries.names()[j] == self.entries.names()[i as int]);
                }
                assert(self.pairs().take(i + 1) =~= self.pairs().take(i as int).push(self.pairs()[i as int]));
            }
            copy.insert(k, v);
            proof {
                assert forall|key: Seq<char>| #[trigger] copy@.contains_key(key) <==> exists|j: int|
                    0 <= j < i + 1 && self.entries.names()[j] == key by {
                    if key == name {
                        assert(self.entries.names()[i as int] == key);
                    }
                }
            }
            i = i + 1;
        }
        proof {
            assert forall|k: Seq<char>| #[trigger] self@.contains_key(k) implies copy@.contains_key(k) by {
                let j: int = self.entries.names().index_of(k);
                assert(0 <= j < i && self.entries.names()[j] == k);
            }
            assert(copy@ =~= self@);
            assert(self.pairs().take(count as int) =~= self.pairs());
        }
        copy
    }
}

/// Something that happened, as a device or the manager publishes it.
#[derive(Clone, Debug)]
pub struct Event {
    pub name: String,
    pub data: EventData,
    pub source: String,
    pub target: EventTarget,
}

impl Event {
    /// An event named `name` from `source`, with no data, for everyone.
    pub fn new(name: String, source: String) -> (ev: Event)
        ensures
            ev.name@ == name@,
            ev.source@ == source@,
            ev.data@ == Map::<Seq<char>, Seq<char>>::empty(),
            ev.data.pairs() == Seq::<(Seq<char>, Seq<char>)>::empty(),
            ev.target == EventTarget::Everyone,
    {
        Event { name, data: EventData::new(), source, target: EventTarget::Everyone }
    }
}

/// The text that `{:?}` gives for a string: the string in double quotes,
/// with its special characters escaped.
pub uninterp spec fn debug_text(s: Seq<char>) -> Seq<char>;

/// Formats `s` with `<str as Debug>::fmt`; the result is named
/// `debug_text` of the text (std's escaping rules are not restated here).
#[verifier::external_body]
fn debug_quoted(s: &str) -> (r: String)
    ensures
        r@ == debug_text(s@),
{
    format!("{:?}", s)
}

/// One key-value pair as a map's `{:?}` shows it.
pub open spec fn pair_text(p: (Seq<char>, Seq<char>)) -> Seq<char> {
    debug_text(p.0) + ": "@ + debug_text(p.1)
}

/// The pairs, each shown as `key: value`, separated by ", ".
pub open spec fn pairs_text(pairs: Seq<(Seq<char>, Seq<char>)>) -> Seq<char>
    decreases pairs.len(),
{
    if pairs.len() == 0 {
        Seq::empty()
    } else if pairs.len() == 1 {
        pair_text(pairs[0])
    } else {
        pairs_text(pairs.drop_last()) + ", "@ + pair_text(pairs.last())
    }
}

/// How an event is shown: its source, name, target and data.
pub open spec fn event_text(ev: Event) -> Seq<char> {
    "src="@ + ev.source@ + ", event="@ + ev.name@ + ", trg="@ + target_label(ev.target)
        + ", data={"@ + pairs_text(ev.data.pairs()) + "}"@
}

impl Event {
    /// The event as text: `src=<source>, event=<name>, trg=<target>,
    /// data={<key>: <value>, ...}`, keys and values quoted as `{:?}` does.
    pub fn describe(&self) -> (r: String)
        ensures
            r@ == event_text(*self),
    {
        let pairs = self.data.to_pairs();
        let ghost views = self.data.pairs();
        let mut out = String::from_str("src=");
        out.append(self.source.as_str());
        out.append(", event=");
        out.append(self.name.as_str());
        out.append(", trg=");
        let label = self.target.label();
        out.append(label.as_str());
        out.append(", data={");
        let ghost head = out@;
        let mut i: usize = 0;
        assert(views.take(0) =~= Seq::<(Seq<char>, Seq<char>)>::empty());
        while i < pairs.len()
            invariant
                pairs.len() == views.len(),
                forall|j: int| 0 <= j < pairs.len() ==> (pairs[j].0@, pairs[j].1@) == #[trigger] views[j],
                i <= pairs.len(),
                out@ == head + pairs_text(views.take(i as int)),
            decreases pairs.len() - i,
        {
            let ghost before = out@;
            if i > 0 {
                out.append(", ");
            }
            let k = debug_quoted(pairs[i].0.as_str());
            out.append(k.as_str());
            out.append(": ");
            let v = debug_quoted(pairs[i].1.as_str());
            out.append(v.as_str());
            proof {
                let next = views.take(i + 1);
                assert(views[i as int] == (pairs[i as int].0@, pairs[i as int].1@));
                assert(next.last() == views[i as int]);
                if i == 0 {
                    assert(next.len() == 1);
                    assert(out@ =~= head + pairs_text(next));
                } else {
                    assert(next.drop_last() =~= views.take(i as int));
                    assert(out@ =~= head + pairs_text(next));
                }
            }
            i = i + 1;
        }
        out.append("}");
        assert(views.take(views.len() as int) =~= views);
        assert(out@ =~= event_text(*self));
        out
    }
}

/// Storing `value` under `key` with `EventData::insert` (taking `before`
/// to `after`, as its `ensures` describe) and then reading with
/// `EventData::get`: the key gives the stored value, every other key gives
/// what it gave before, and a new key is shown last while an old one keeps
/// its place.
pub proof fn law_data_read_after_write(
    before: EventData,
    after: EventData,
    key: Seq<char>,
    value: Seq<char>,
    other: Seq<char>,
)
    requires
        after@ == before@.insert(key, value),
        before@.contains_key(key) ==> after.pairs() == before.pairs().map_values(
            |p: (Seq<char>, Seq<char>)| if p.0 == key { (p.0, value) } else { p },
        ),
        !before@.contains_key(key) ==> after.pairs() == before.pairs().push((key, value)),
    ensures
        after@.contains_key(key),
        after@[key] == value,
        other != key ==> after@.contains_key(other) == before@.contains_key(other),
        other != key && before@.contains_key(other) ==> after@[other] == before@[other],
        before@.contains_key(key) ==> after.pairs().len() == before.pairs().len(),
        !before@.contains_key(key) ==> after.pairs().len() == before.pairs().len() + 1
            && after.pairs().last() == (key, value),
{
}

} // verus!
