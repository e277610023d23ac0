//! What a service is: its identity and the endpoints it answers on. Both are
//! fixed when the service starts.

use vstd::prelude::*;

verus! {

/// The mapping that a list of key/value pairs stands for. Where a key occurs
/// more than once, its last pair counts.
pub open spec fn pairs_to_map(pairs: Seq<(Seq<char>, Seq<char>)>) -> Map<Seq<char>, Seq<char>>
    decreases pairs.len(),
{
    if pairs.len() == 0 {
        Map::empty()
    } else {
        pairs_to_map(pairs.drop_last()).insert(pairs.last().0, pairs.last().1)
    }
}

/// Free-form metadata: a mapping from text to text.
///
/// The pairs are kept in the order in which they were set; the mapping they
/// stand for is the view.
pub struct Metadata {
    pub pairs: Vec<(String, String)>,
}

impl View for Metadata {
    type V = Map<Seq<char>, Seq<char>>;

    open spec fn view(&self) -> Map<Seq<char>, Seq<char>> {
        pairs_to_map(self.pairs.deep_view())
    }
}

impl Metadata {
    /// Metadata without any key.
    pub fn new() -> (metadata: Metadata)
        ensures
            metadata@ == Map::<Seq<char>, Seq<char>>::empty(),
    {
        Metadata { pairs: Vec::new() }
    }

    /// Sets `key` to `value`, in place of what it was set to before.
    pub fn insert(&mut self, key: String, value: String)
        ensures
            final(self)@ == old(self)@.insert(key@, value@),
    {
        let ghost before = self.pairs.deep_view();
        self.pairs.push((key, value));
        assert(self.pairs.deep_view().drop_last() == before);
    }
}

impl Clone for Metadata {
    fn clone(&self) -> (copy: Metadata)
        ensures
            copy.pairs.deep_view() == self.pairs.deep_view(),
            copy@ == self@,
    {
        let mut pairs: Vec<(String, String)> = Vec::new();
        let mut i: usize = 0;
        while i < self.pairs.len()
            invariant
                i <= self.pairs.len(),
                pairs.deep_view() == self.pairs.deep_view().take(i as int),
            decreases self.pairs.len() - i,
        {
            let pair = &self.pairs[i];
            pairs.push((pair.0.clone(), pair.1.clone()));
            assert(self.pairs.deep_view().take(i + 1) == self.pairs.deep_view().take(
                i as int,
            ).push((pair.0@, pair.1@)));
            i += 1;
        }
        Metadata { pairs }
    }
}

/// The identity of a service instance.
pub struct ServiceIdentity {
    pub name: String,
    pub id: String,
    pub version: String,
    pub description: String,
    pub metadata: Metadata,
}

/// A [`ServiceIdentity`] as plain values.
pub struct ServiceIdentityView {
    pub name: Seq<char>,
    pub id: Seq<char>,
    pub version: Seq<char>,
    pub description: Seq<char>,
    pub metadata: Map<Seq<char>, Seq<char>>,
}

impl View for ServiceIdentity {
    type V = ServiceIdentityView;

    open spec fn view(&self) -> ServiceIdentityView {
        ServiceIdentityView {
            name: self.name@,
            id: self.id@,
            version: self.version@,
            description: self.description@,
            metadata: self.metadata@,
        }
    }
}

impl Clone for ServiceIdentity {
    fn clone(&self) -> (copy: ServiceIdentity)
        ensures
            copy@ == self@,
    {
        ServiceIdentity {
            name: self.name.clone(),
            id: self.id.clone(),
            version: self.version.clone(),
            description: self.description.clone(),
            metadata: self.metadata.clone(),
        }
    }
}

/// A business endpoint: its name, the subject it answers on and the queue
/// group its subscribers share.
pub struct EndpointDescriptor {
    pub name: String,
    pub subject: String,
    pub queue_group: String,
}

/// An [`EndpointDescriptor`] as plain values.
pub struct EndpointDescriptorView {
    pub name: Seq<char>,
    pub subject: Seq<char>,
    pub queue_group: Seq<char>,
}

impl View for EndpointDescriptor {
    type V = EndpointDescriptorView;

    open spec fn view(&self) -> EndpointDescriptorView {
        EndpointDescriptorView {
            name: self.name@,
            subject: self.subject@,
            queue_group: self.queue_group@,
        }
    }
}

impl Clone for EndpointDescriptor {
    fn clone(&self) -> (copy: EndpointDescriptor)
        ensures
            copy@ == self@,
    {
        EndpointDescriptor {
            name: self.name.clone(),
            subject: self.subject.clone(),
            queue_group: self.queue_group.clone(),
        }
    }
}

/// The views of a list of endpoint descriptors, in the same order.
pub open spec fn descriptor_views(endpoints: Seq<EndpointDescriptor>) -> Seq<
    EndpointDescriptorView,
> {
    endpoints.map_values(|e: EndpointDescriptor| e@)
}

} // verus!
