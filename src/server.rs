//! The remote object registry: a session-scoped, reference-counted table of
//! objects that a remote client holds by numeric identifier.
use vstd::prelude::*;

use std::collections::HashMap;
use std::sync::Arc;

use crate::capability::PhlowRegistry;
use crate::object::PhlowObject;
use crate::session::{new_session, parse_session, parsed_uuid, session_text};
use crate::specification::{
    listed_objects, PhlowViewSpecification, PhlowViewSpecificationListingItem,
};
use crate::value::{AnyValue, Value};
use crate::views::PhlowView;

verus! {

broadcast use vstd::std_specs::hash::group_hash_axioms;

/// A registered object and how many handles the client holds on it.
pub struct RegisteredObject {
    pub object: PhlowObject,
    pub reference_count: usize,
}

/// What the client learns of a registered object.
pub struct PhlowObjectDescription {
    pub id: u64,
    pub object_type: String,
    pub print_string: String,
    pub reference_count: usize,
    pub should_auto_release: bool,
}

impl PhlowObjectDescription {
    /// The description is of `object`, registered under `id` with `count` handles.
    pub open spec fn spec_describes(self, object: PhlowObject, id: u64, count: usize) -> bool {
        &&& self.id == id
        &&& self.object_type@ == object.spec_type_name()
        &&& self.print_string@ == object.spec_to_string()
        &&& self.reference_count == count
    }

    fn describe(object: &PhlowObject, id: u64, reference_count: usize) -> (r: Self)
        ensures
            r.spec_describes(*object, id, reference_count),
            r.should_auto_release,
    {
        PhlowObjectDescription {
            id,
            object_type: object.value_type_name().to_owned(),
            print_string: object.to_string(),
            reference_count,
            should_auto_release: true,
        }
    }

    /// The description of `object` under its own identity.
    pub fn new(object: &PhlowObject, reference_count: usize) -> (r: Self)
        ensures
            r.id == object.data.id,
            r.object_type@ == object.spec_type_name(),
            r.print_string@ == object.spec_to_string(),
            r.reference_count == reference_count,
            r.should_auto_release,
    {
        Self::describe(object, object.object_id(), reference_count)
    }

    pub fn without_auto_release(self) -> (r: Self)
        ensures
            r == (PhlowObjectDescription { should_auto_release: false, ..self }),
    {
        PhlowObjectDescription { should_auto_release: false, ..self }
    }

    pub fn with_auto_release(self) -> (r: Self)
        ensures
            r == (PhlowObjectDescription { should_auto_release: true, ..self }),
    {
        PhlowObjectDescription { should_auto_release: true, ..self }
    }
}

/// One more handle, saturating at the largest count.
pub open spec fn bumped(count: usize) -> usize {
    if count == usize::MAX {
        count
    } else {
        (count + 1) as usize
    }
}

/// The handle count of `id` after one more registration of it.
pub open spec fn registered_count(objects: Map<u64, RegisteredObject>, id: u64) -> usize {
    if objects.contains_key(id) {
        bumped(objects[id].reference_count)
    } else {
        1
    }
}

/// The table after registering `object` under `id`.
pub open spec fn spec_register(objects: Map<u64, RegisteredObject>, id: u64, object: PhlowObject) -> Map<
    u64,
    RegisteredObject,
> {
    objects.insert(id, RegisteredObject { object, reference_count: registered_count(objects, id) })
}

/// The table after releasing one handle on `id`, and the object removed with
/// the last handle.
pub open spec fn spec_release(objects: Map<u64, RegisteredObject>, id: u64) -> (Map<
    u64,
    RegisteredObject,
>, Option<PhlowObject>) {
    if !objects.contains_key(id) {
        (objects, None)
    } else if objects[id].reference_count <= 1 {
        (objects.remove(id), Some(objects[id].object))
    } else {
        (
            objects.insert(
                id,
                RegisteredObject {
                    object: objects[id].object,
                    reference_count: (objects[id].reference_count - 1) as usize,
                },
            ),
            None,
        )
    }
}

/// Registering an object under an id that is not registered and then releasing
/// that id once removes the entry again and hands the object back; a second
/// release of the id finds nothing.
pub proof fn lemma_register_release_round_trip(
    objects: Map<u64, RegisteredObject>,
    id: u64,
    object: PhlowObject,
)
    requires
        !objects.contains_key(id),
    ensures
        ({
            let (after, released) = spec_release(spec_register(objects, id, object), id);
            &&& released == Some(object)
            &&& !after.contains_key(id)
            &&& after == objects
            &&& spec_release(after, id).1 is None
        }),
{
    let registered = spec_register(objects, id, object);
    assert(registered[id].reference_count == 1);
    assert(registered.remove(id) =~= objects);
}

/// Each registration of an id adds one handle, each release takes one away,
/// and the object leaves the table with its last handle: registering twice
/// and releasing twice returns the object on the second release only.
pub proof fn lemma_two_registrations_need_two_releases(
    objects: Map<u64, RegisteredObject>,
    id: u64,
    object: PhlowObject,
)
    requires
        !objects.contains_key(id),
    ensures
        ({
            let twice = spec_register(spec_register(objects, id, object), id, object);
            let (once_released, first) = spec_release(twice, id);
            let (both_released, second) = spec_release(once_released, id);
            &&& twice[id].reference_count == 2
            &&& first is None
            &&& once_released.contains_key(id)
            &&& once_released[id].reference_count == 1
            &&& second == Some(object)
            &&& both_released == objects
        }),
{
    let twice = spec_register(spec_register(objects, id, object), id, object);
    let (once_released, first) = spec_release(twice, id);
    assert(once_released.remove(id) =~= objects);
}

/// Handles are added only by registration: registering adds one to the
/// registered id and leaves every other entry alone, and a release never
/// raises a count. Looking an object up takes the table by shared reference
/// and so changes nothing.
pub proof fn lemma_only_registration_adds_handles(
    objects: Map<u64, RegisteredObject>,
    id: u64,
    object: PhlowObject,
    other: u64,
)
    requires
        objects.contains_key(id) ==> objects[id].reference_count < usize::MAX,
    ensures
        spec_register(objects, id, object)[id].reference_count == (if objects.contains_key(id) {
            objects[id].reference_count + 1
        } else {
            1
        }),
        other != id ==> spec_register(objects, id, object).contains_key(other)
            == objects.contains_key(other),
        other != id && objects.contains_key(other) ==> spec_register(objects, id, object)[other]
            == objects[other],
        spec_release(objects, id).0.contains_key(other) ==> objects.contains_key(other)
            && spec_release(objects, id).0[other].reference_count <= objects[other].reference_count,
{
}

/// The ids are strictly increasing.
pub open spec fn strictly_sorted(ids: Seq<u64>) -> bool {
    forall|i: int, j: int| 0 <= i < j < ids.len() ==> ids[i] < ids[j]
}

/// The registry of a running inspection server.
pub struct PhlowServer {
    pub root_object: PhlowObject,
    pub objects: HashMap<u64, RegisteredObject>,
    /// The registered ids in increasing order.
    pub ids: Vec<u64>,
    pub session: u128,
    pub routes: Vec<(String, String)>,
    pub server_object_id: u64,
}

fn insert_sorted(ids: &mut Vec<u64>, id: u64)
    requires
        strictly_sorted(old(ids)@),
        !old(ids)@.contains(id),
    ensures
        strictly_sorted(final(ids)@),
        forall|k: u64| final(ids)@.contains(k) <==> (old(ids)@.contains(k) || k == id),
{
    let mut p: usize = 0;
    while p < ids.len() && ids[p] < id
        invariant
            p <= ids@.len(),
            forall|j: int| 0 <= j < p ==> ids@[j] < id,
        decreases ids@.len() - p,
    {
        p = p + 1;
    }
    let ghost before = ids@;
    ids.insert(p, id);
    proof {
        assert forall|k: u64| ids@.contains(k) <==> (before.contains(k) || k == id) by {
            if ids@.contains(k) {
                let i = choose|i: int| 0 <= i < ids@.len() && ids@[i] == k;
                if i < p {
                    assert(before[i] == k);
                } else if i > p {
                    assert(before[i - 1] == k);
                }
            }
            if before.contains(k) {
                let i = choose|i: int| 0 <= i < before.len() && before[i] == k;
                if i < p {
                    assert(ids@[i] == k);
                } else {
                    assert(ids@[i + 1] == k);
                }
            }
            if k == id {
                assert(ids@[p as int] == k);
            }
        }
        if p < before.len() {
            assert(before[p as int] != id);
            assert(before[p as int] > id);
        }
        assert forall|i: int, j: int| 0 <= i < j < ids@.len() implies ids@[i] < ids@[j] by {
            if j < p {
            } else if j == p {
            } else if i < p {
                assert(before[i] < id);
                assert(before[p as int] > id);
                assert(before[p as int] <= before[j - 1]);
            } else if i == p {
                assert(before[p as int] > id);
                assert(before[p as int] <= before[j - 1]);
            } else {
            }
        }
    }
}

fn remove_sorted(ids: &mut Vec<u64>, id: u64)
    requires
        strictly_sorted(old(ids)@),
        old(ids)@.contains(id),
    ensures
        strictly_sorted(final(ids)@),
        forall|k: u64| final(ids)@.contains(k) <==> (old(ids)@.contains(k) && k != id),
{
    let mut p: usize = 0;
    while p < ids.len() && ids[p] != id
        invariant
            p <= ids@.len(),
            forall|j: int| 0 <= j < p ==> ids@[j] != id,
        decreases ids@.len() - p,
    {
        p = p + 1;
    }
    if p == ids.len() {
        assert(false);
        return;
    }
    let ghost before = ids@;
    ids.remove(p);
    proof {
        assert forall|k: u64| ids@.contains(k) <==> (before.contains(k) && k != id) by {
            if ids@.contains(k) {
                let i = choose|i: int| 0 <= i < ids@.len() && ids@[i] == k;
                if i < p {
                    assert(before[i] == k);
                    assert(before[i] < before[p as int]);
                } else {
                    assert(before[i + 1] == k);
                    assert(before[i + 1] > before[p as int]);
                }
            }
            if before.contains(k) && k != id {
                let i = choose|i: int| 0 <= i < before.len() && before[i] == k;
                if i < p {
                    assert(ids@[i] == k);
                } else {
                    assert(i != p);
                    assert(ids@[i - 1] == k);
                }
            }
        }
    }
}

impl PhlowServer {
    /// The ids list exactly the registered objects, in increasing order, and
    /// every registered object has at least one handle.
    pub open spec fn wf(self) -> bool {
        &&& strictly_sorted(self.ids@)
        &&& forall|k: u64| self.objects@.contains_key(k) <==> self.ids@.contains(k)
        &&& forall|k: u64|
            self.objects@.contains_key(k) ==> #[trigger] self.objects@[k].reference_count > 0
        &&& forall|k: u64|
            self.objects@.contains_key(k) ==> (#[trigger] self.objects@[k]).object.data.id == k
    }

    /// A server for a fresh session, with `root_object` and the server's own
    /// object registered once each.
    pub fn new(root_object: PhlowObject, registry: &Arc<PhlowRegistry>) -> (r: Self)
        ensures
            r.wf(),
            r.root_object == root_object,
            r.objects@.dom() == set![root_object.data.id, r.server_object_id],
            r.objects@[r.server_object_id].object.data.value matches AnyValue::Object(
                Value::Record(t, _),
            ) && t@ == "phlow_server::PhlowServer"@,
            root_object.data.id != r.server_object_id ==> {
                &&& r.objects@[root_object.data.id].object == root_object
                &&& r.objects@[root_object.data.id].reference_count == 1
                &&& r.objects@[r.server_object_id].reference_count == 1
            },
            r.routes@.len() == 0,
    {
        let session = new_session();
        let mut fields: Vec<(String, Value)> = Vec::new();
        fields.push(("Session".to_owned(), Value::Text(session_text(session))));
        let server_object = PhlowObject::object(
            Value::Record("phlow_server::PhlowServer".to_owned(), Arc::new(fields)),
            registry,
        );
        let mut server = PhlowServer {
            root_object: root_object.clone(),
            objects: HashMap::new(),
            ids: Vec::new(),
            session,
            routes: Vec::new(),
            server_object_id: 0,
        };
        let root = server.register_object(root_object);
        let own = server.register_object(server_object);
        server.server_object_id = own.id;
        assert(server.objects@.dom() =~= set![root.id, own.id]);
        server
    }

    /// The id of the server's own object.
    pub fn id(&self) -> (r: u64)
        ensures
            r == self.server_object_id,
    {
        self.server_object_id
    }

    pub fn session(&self) -> (r: u128)
        ensures
            r == self.session,
    {
        self.session
    }

    /// The session token as the client sees it.
    pub fn session_string(&self) -> (r: String)
        ensures
            r@ == crate::session::hyphenated_text(self.session),
    {
        session_text(self.session)
    }

    pub fn add_route(&mut self, method: &str, route: &str)
        ensures
            final(self).routes@.len() == old(self).routes@.len() + 1,
            final(self).routes@.drop_last() == old(self).routes@,
            final(self).routes@.last().0@ == method@,
            final(self).routes@.last().1@ == route@,
            final(self).objects@ == old(self).objects@,
            final(self).ids@ == old(self).ids@,
            final(self).session == old(self).session,
    {
        self.routes.push((method.to_owned(), route.to_owned()));
        assert(self.routes@.drop_last() == old(self).routes@);
    }

    pub fn get_routes(&self) -> (r: &Vec<(String, String)>)
        ensures
            *r == self.routes,
    {
        &self.routes
    }

    /// Registers `object` under its identity, or adds a handle if it is
    /// registered already.
    pub fn register_object(&mut self, object: PhlowObject) -> (r: PhlowObjectDescription)
        requires
            old(self).wf(),
        ensures
            final(self).wf(),
            r.id == object.data.id,
            final(self).objects@ == spec_register(old(self).objects@, r.id, object),
            r.spec_describes(object, r.id, registered_count(old(self).objects@, r.id)),
            r.should_auto_release,
            final(self).session == old(self).session,
            final(self).root_object == old(self).root_object,
            final(self).server_object_id == old(self).server_object_id,
            final(self).routes == old(self).routes,
    {
        let id = object.object_id();
        self.register_object_with_id(id, object)
    }

    fn register_object_with_id(&mut self, id: u64, object: PhlowObject) -> (r: PhlowObjectDescription)
        requires
            old(self).wf(),
            object.data.id == id,
        ensures
            final(self).wf(),
            r.id == id,
            final(self).objects@ == spec_register(old(self).objects@, id, object),
            r.spec_describes(object, id, registered_count(old(self).objects@, id)),
            r.should_auto_release,
            final(self).session == old(self).session,
            final(self).root_object == old(self).root_object,
            final(self).server_object_id == old(self).server_object_id,
            final(self).routes == old(self).routes,
    {
        let count = match self.objects.get(&id) {
            Some(entry) => {
                if entry.reference_count == usize::MAX {
                    entry.reference_count
                } else {
                    entry.reference_count + 1
                }
            },
            None => {
                insert_sorted(&mut self.ids, id);
                1
            },
        };
        let description = PhlowObjectDescription::describe(&object, id, count);
        self.objects.insert(id, RegisteredObject { object, reference_count: count });
        description
    }

    /// Releases one handle on `id` for the client of `session`. The object is
    /// removed with its last handle and returned; a foreign session, an unknown
    /// id, or a remaining handle yield `None`.
    pub fn release_object(&mut self, session: u128, id: u64) -> (r: Option<PhlowObject>)
        requires
            old(self).wf(),
        ensures
            final(self).wf(),
            session != old(self).session ==> r is None && final(self).objects@ == old(
                self,
            ).objects@,
            session == old(self).session ==> (final(self).objects@, r) == spec_release(
                old(self).objects@,
                id,
            ),
            final(self).session == old(self).session,
            final(self).root_object == old(self).root_object,
            final(self).server_object_id == old(self).server_object_id,
            final(self).routes == old(self).routes,
    {
        if session != self.session {
            return None;
        }
        let count = match self.objects.get(&id) {
            Some(entry) => entry.reference_count,
            None => {
                return None;
            },
        };
        if count > 1 {
            let entry = self.objects.remove(&id);
            match entry {
                Some(e) => {
                    self.objects.insert(
                        id,
                        RegisteredObject { object: e.object, reference_count: count - 1 },
                    );
                },
                None => {},
            }
            None
        } else {
            remove_sorted(&mut self.ids, id);
            match self.objects.remove(&id) {
                Some(e) => Some(e.object),
                None => None,
            }
        }
    }

    /// Releases one handle for the client of the session written as `session`;
    /// `true` iff the session is this server's and `id` was registered.
    pub fn release_object_for(&mut self, session: &str, id: u64) -> (r: bool)
        requires
            old(self).wf(),
        ensures
            final(self).wf(),
            r == (parsed_uuid(session@) == Some(old(self).session) && old(
                self,
            ).objects@.contains_key(id)),
            parsed_uuid(session@) == Some(old(self).session) ==> final(self).objects@ == spec_release(
                old(self).objects@,
                id,
            ).0,
            parsed_uuid(session@) != Some(old(self).session) ==> final(self).objects@ == old(
                self,
            ).objects@,
            session@ == crate::session::hyphenated_text(old(self).session) ==> r == old(
                self,
            ).objects@.contains_key(id),
            final(self).session == old(self).session,
    {
        match parse_session(session) {
            None => false,
            Some(s) => {
                if s != self.session {
                    return false;
                }
                let known = self.objects.contains_key(&id);
                self.release_object(s, id);
                known
            },
        }
    }

    /// The views of the root object.
    pub fn root_phlow_views(&self) -> (r: Vec<crate::views::PhlowView>)
        ensures
            r@ == self.root_object.spec_views(),
    {
        self.root_object.phlow_views()
    }

    /// Descriptions of all registered objects in increasing order of id; no
    /// handle counts change.
    pub fn inspect_objects(&self) -> (r: Vec<PhlowObjectDescription>)
        requires
            self.wf(),
        ensures
            r@.len() == self.ids@.len(),
            forall|i: int|
                0 <= i < r@.len() ==> {
                    &&& #[trigger] r@[i].spec_describes(
                        self.objects@[self.ids@[i]].object,
                        self.ids@[i],
                        self.objects@[self.ids@[i]].reference_count,
                    )
                    &&& !r@[i].should_auto_release
                },
            forall|i: int, j: int| 0 <= i < j < r@.len() ==> r@[i].id < r@[j].id,
    {
        let mut r: Vec<PhlowObjectDescription> = Vec::new();
        let mut i: usize = 0;
        while i < self.ids.len()
            invariant
                self.wf(),
                i <= self.ids@.len(),
                r@.len() == i,
                forall|j: int|
                    0 <= j < i ==> {
                        &&& #[trigger] r@[j].spec_describes(
                            self.objects@[self.ids@[j]].object,
                            self.ids@[j],
                            self.objects@[self.ids@[j]].reference_count,
                        )
                        &&& !r@[j].should_auto_release
                    },
            decreases self.ids@.len() - i,
        {
            let id = self.ids[i];
            assert(self.ids@.contains(id));
            match self.objects.get(&id) {
                Some(entry) => {
                    let d = PhlowObjectDescription::describe(
                        &entry.object,
                        id,
                        entry.reference_count,
                    ).without_auto_release();
                    r.push(d);
                },
                None => {
                    assert(false);
                },
            }
            i = i + 1;
        }
        proof {
            assert forall|a: int, b: int| 0 <= a < b < r@.len() implies r@[a].id < r@[b].id by {
                assert(r@[a].spec_describes(
                    self.objects@[self.ids@[a]].object,
                    self.ids@[a],
                    self.objects@[self.ids@[a]].reference_count,
                ));
                assert(r@[b].spec_describes(
                    self.objects@[self.ids@[b]].object,
                    self.ids@[b],
                    self.objects@[self.ids@[b]].reference_count,
                ));
            }
        }
        r
    }

    /// The object registered under `id`; no handle counts change.
    pub fn find_object(&self, id: u64) -> (r: Option<PhlowObject>)
        ensures
            self.objects@.contains_key(id) ==> r == Some(self.objects@[id].object),
            !self.objects@.contains_key(id) ==> r is None,
    {
        match self.objects.get(&id) {
            Some(entry) => Some(entry.object.clone()),
            None => None,
        }
    }

    /// Describes the object registered under `id`, adding a handle on it.
    pub fn retrieve_object(&mut self, id: u64) -> (r: Option<PhlowObjectDescription>)
        requires
            old(self).wf(),
        ensures
            final(self).wf(),
            !old(self).objects@.contains_key(id) ==> r is None && final(self).objects@ == old(
                self,
            ).objects@,
            old(self).objects@.contains_key(id) ==> final(self).objects@ == spec_register(
                old(self).objects@,
                id,
                old(self).objects@[id].object,
            ),
            old(self).objects@.contains_key(id) ==> (r matches Some(d) && d.spec_describes(
                old(self).objects@[id].object,
                id,
                registered_count(old(self).objects@, id),
            ) && d.should_auto_release),
            final(self).session == old(self).session,
            final(self).root_object == old(self).root_object,
            final(self).server_object_id == old(self).server_object_id,
            final(self).routes == old(self).routes,
    {
        let object = match self.objects.get(&id) {
            Some(entry) => entry.object.clone(),
            None => {
                return None;
            },
        };
        Some(self.register_object_with_id(id, object))
    }

    /// The views of the object registered under `id`.
    pub fn registered_object_description_by_id_views(&self, id: u64) -> (r: Option<
        Vec<crate::views::PhlowView>,
    >)
        ensures
            self.objects@.contains_key(id) ==> (r matches Some(v) && v@
                == self.objects@[id].object.spec_views()),
            !self.objects@.contains_key(id) ==> r is None,
    {
        match self.find_object(id) {
            Some(o) => Some(o.phlow_views()),
            None => None,
        }
    }
}

/// One item of a view listing as the client receives it: the registered
/// object's description, its id, and the item itself.
pub struct PhlowViewSpecificationDataNode {
    pub phlow_object: PhlowObjectDescription,
    pub node_id: u64,
    pub node_value: PhlowViewSpecificationListingItem,
}

/// The table after registering each of `objects` in order.
pub open spec fn register_all(table: Map<u64, RegisteredObject>, objects: Seq<PhlowObject>) -> Map<
    u64,
    RegisteredObject,
>
    decreases objects.len(),
{
    if objects.len() == 0 {
        table
    } else {
        let o = objects.last();
        spec_register(register_all(table, objects.drop_last()), o.data.id, o)
    }
}

/// The listed items of `nodes`, in order.
pub open spec fn node_values(nodes: Seq<PhlowViewSpecificationDataNode>) -> Seq<
    PhlowViewSpecificationListingItem,
> {
    nodes.map_values(|n: PhlowViewSpecificationDataNode| n.node_value)
}

/// The first view in `views` made by the method with full name `selector`.
pub open spec fn first_with_selector(views: Seq<PhlowView>, selector: Seq<char>) -> Option<PhlowView>
    decreases views.len(),
{
    if views.len() == 0 {
        None
    } else if views[0].spec_defining_method().full_method_name@ == selector {
        Some(views[0])
    } else {
        first_with_selector(views.drop_first(), selector)
    }
}

/// The specification of the view of `object` that the method with full name
/// `selector` makes, if there is one.
pub fn find_view_specification_for_object(object: &PhlowObject, selector: &str) -> (r: Option<
    PhlowViewSpecification,
>)
    ensures
        match first_with_selector(object.spec_views(), selector@) {
            None => r is None,
            Some(v) => r matches Some(s) && s.spec_of(v),
        },
{
    let views = object.phlow_views();
    let mut i: usize = 0;
    assert(views@.subrange(0, views@.len() as int) == views@);
    while i < views.len()
        invariant
            i <= views@.len(),
            views@ == object.spec_views(),
            first_with_selector(views@, selector@) == first_with_selector(
                views@.subrange(i as int, views@.len() as int),
                selector@,
            ),
        decreases views@.len() - i,
    {
        proof {
            let rest = views@.subrange(i as int, views@.len() as int);
            assert(rest[0] == views@[i as int]);
            assert(rest.drop_first() == views@.subrange(i + 1, views@.len() as int));
        }
        if crate::capability::same_text(
            views[i].get_defining_method().full_method_name.as_str(),
            selector,
        ) {
            return Some(views[i].as_view_specification());
        }
        i = i + 1;
    }
    None
}

impl PhlowServer {
    /// The specifications of all views of the object registered under `id`;
    /// none when nothing is registered there.
    pub fn object_views(&self, id: u64) -> (r: Vec<PhlowViewSpecification>)
        ensures
            !self.objects@.contains_key(id) ==> r@.len() == 0,
            self.objects@.contains_key(id) ==> r@.len() == self.objects@[id].object.spec_views().len()
                && forall|i: int|
                0 <= i < r@.len() ==> (#[trigger] r@[i]).spec_of(
                    self.objects@[id].object.spec_views()[i],
                ),
    {
        let views = match self.registered_object_description_by_id_views(id) {
            Some(v) => v,
            None => Vec::new(),
        };
        let mut r: Vec<PhlowViewSpecification> = Vec::new();
        let mut i: usize = 0;
        while i < views.len()
            invariant
                i <= views@.len(),
                r@.len() == i,
                forall|j: int| 0 <= j < i ==> (#[trigger] r@[j]).spec_of(views@[j]),
            decreases views@.len() - i,
        {
            r.push(views[i].as_view_specification());
            i = i + 1;
        }
        r
    }

    /// The specification of the view with method `selector` of the object
    /// registered under `id`.
    pub fn object_view(&self, id: u64, selector: &str) -> (r: Option<PhlowViewSpecification>)
        ensures
            !self.objects@.contains_key(id) ==> r is None,
            self.objects@.contains_key(id) ==> match first_with_selector(
                self.objects@[id].object.spec_views(),
                selector@,
            ) {
                None => r is None,
                Some(v) => r matches Some(s) && s.spec_of(v),
            },
    {
        match self.find_object(id) {
            Some(object) => find_view_specification_for_object(&object, selector),
            None => None,
        }
    }

    /// Registers the object of each listed item, in order, and describes it.
    pub fn register_listing(&mut self, items: Vec<PhlowViewSpecificationListingItem>) -> (r: Vec<
        PhlowViewSpecificationDataNode,
    >)
        requires
            old(self).wf(),
        ensures
            final(self).wf(),
            final(self).objects@ == register_all(old(self).objects@, listed_objects(items@)),
            r@.len() == items@.len(),
            forall|i: int|
                0 <= i < r@.len() ==> {
                    &&& (#[trigger] r@[i]).node_value == items@[i]
                    &&& r@[i].node_id == items@[i].spec_object().data.id
                    &&& r@[i].phlow_object.spec_describes(
                        items@[i].spec_object(),
                        r@[i].node_id,
                        registered_count(
                            register_all(
                                old(self).objects@,
                                listed_objects(items@).subrange(0, i),
                            ),
                            r@[i].node_id,
                        ),
                    )
                    &&& r@[i].phlow_object.should_auto_release
                },
            final(self).session == old(self).session,
            final(self).root_object == old(self).root_object,
            final(self).server_object_id == old(self).server_object_id,
            final(self).routes == old(self).routes,
    {
        let mut items = items;
        let total = items.len();
        let ghost all = items@;
        let mut reversed: Vec<PhlowViewSpecificationListingItem> = Vec::new();
        while items.len() > 0
            invariant
                all == items@ + reversed@.reverse(),
            decreases items@.len(),
        {
            let ghost before = items@;
            let ghost rev_before = reversed@;
            match items.pop() {
                Some(item) => {
                    reversed.push(item);
                    proof {
                        assert(before == items@.push(item));
                        assert(reversed@.reverse() =~= seq![item] + rev_before.reverse());
                        assert(all =~= items@ + reversed@.reverse());
                    }
                },
                None => {},
            }
        }
        assert(all =~= reversed@.reverse());
        let mut r: Vec<PhlowViewSpecificationDataNode> = Vec::new();
        let mut i: usize = 0;
        while reversed.len() > 0
            invariant
                self.wf(),
                all.len() == total,
                i + reversed@.len() == all.len(),
                reversed@.reverse() == all.subrange(i as int, all.len() as int),
                r@.len() == i,
                self.objects@ == register_all(
                    old(self).objects@,
                    listed_objects(all).subrange(0, i as int),
                ),
                forall|j: int|
                    0 <= j < r@.len() ==> {
                        &&& (#[trigger] r@[j]).node_value == all[j]
                        &&& r@[j].node_id == all[j].spec_object().data.id
                        &&& r@[j].phlow_object.spec_describes(
                            all[j].spec_object(),
                            r@[j].node_id,
                            registered_count(
                                register_all(old(self).objects@, listed_objects(all).subrange(0, j)),
                                r@[j].node_id,
                            ),
                        )
                        &&& r@[j].phlow_object.should_auto_release
                    },
                self.session == old(self).session,
                self.root_object == old(self).root_object,
                self.server_object_id == old(self).server_object_id,
                self.routes == old(self).routes,
            decreases reversed@.len(),
        {
            let ghost rev_before = reversed@;
            match reversed.pop() {
                Some(item) => {
                    proof {
                        assert(rev_before == reversed@.push(item));
                        assert(item == rev_before.reverse()[0]);
                        assert(item == all[i as int]);
                        assert(reversed@.reverse() =~= rev_before.reverse().drop_first());
                        assert(reversed@.reverse() =~= all.subrange(i + 1, all.len() as int));
                    }
                    let object = item.phlow_object().clone();
                    let description = self.register_object(object);
                    proof {
                        let l = listed_objects(all);
                        assert(l.subrange(0, i + 1).drop_last() == l.subrange(0, i as int));
                        assert(l.subrange(0, i + 1).last() == all[i as int].spec_object());
                    }
                    r.push(
                        PhlowViewSpecificationDataNode {
                            node_id: description.id,
                            phlow_object: description,
                            node_value: item,
                        },
                    );
                    i = i + 1;
                },
                None => {},
            }
        }
        assert(listed_objects(all).subrange(0, all.len() as int) == listed_objects(all));
        r
    }

    /// Lists the items of the view with method `selector` of the object
    /// registered under `id`, registering each item's object.
    pub fn object_view_items(&mut self, id: u64, selector: &str) -> (r: Option<
        Vec<PhlowViewSpecificationDataNode>,
    >)
        requires
            old(self).wf(),
        ensures
            final(self).wf(),
            r is None <==> (!old(self).objects@.contains_key(id) || first_with_selector(
                old(self).objects@[id].object.spec_views(),
                selector@,
            ) is None),
            r is None ==> final(self).objects@ == old(self).objects@,
            r matches Some(nodes) ==> exists|s: PhlowViewSpecification|
                {
                    &&& first_with_selector(
                        old(self).objects@[id].object.spec_views(),
                        selector@,
                    ) matches Some(v) && s.spec_of(v)
                    &&& #[trigger] s.spec_lists(node_values(nodes@))
                },
            r matches Some(nodes) ==> final(self).objects@ == register_all(
                old(self).objects@,
                listed_objects(node_values(nodes@)),
            ),
            r matches Some(nodes) ==> forall|i: int|
                0 <= i < nodes@.len() ==> {
                    &&& (#[trigger] nodes@[i]).node_id == nodes@[i].node_value.spec_object().data.id
                    &&& nodes@[i].phlow_object.id == nodes@[i].node_id
                    &&& nodes@[i].phlow_object.object_type@
                        == nodes@[i].node_value.spec_object().spec_type_name()
                    &&& nodes@[i].phlow_object.print_string@
                        == nodes@[i].node_value.spec_object().spec_to_string()
                },
            final(self).session == old(self).session,
    {
        match self.object_view(id, selector) {
            Some(spec) => {
                let items = spec.retrieve_items();
                let ghost listed = items@;
                let nodes = self.register_listing(items);
                assert(node_values(nodes@) =~= listed);
                Some(nodes)
            },
            None => None,
        }
    }

    /// Registers and describes the object that the view with method `selector`
    /// of the object under `inspected_id` sends for the object under
    /// `selected_id`; `None` when any of them is missing or nothing is sent.
    pub fn object_view_sent_item(
        &mut self,
        inspected_id: u64,
        selector: &str,
        selected_id: u64,
    ) -> (r: Option<PhlowObjectDescription>)
        requires
            old(self).wf(),
        ensures
            final(self).wf(),
            !old(self).objects@.contains_key(inspected_id) || !old(self).objects@.contains_key(
                selected_id,
            ) || first_with_selector(
                old(self).objects@[inspected_id].object.spec_views(),
                selector@,
            ) is None ==> r is None,
            r is None ==> final(self).objects@ == old(self).objects@,
            r is None && old(self).objects@.contains_key(inspected_id) && old(
                self,
            ).objects@.contains_key(selected_id) && first_with_selector(
                old(self).objects@[inspected_id].object.spec_views(),
                selector@,
            ) is Some ==> exists|s: PhlowViewSpecification|
                {
                    &&& first_with_selector(
                        old(self).objects@[inspected_id].object.spec_views(),
                        selector@,
                    ) matches Some(v) && s.spec_of(v)
                    &&& #[trigger] s.spec_sends(old(self).objects@[selected_id].object, None)
                },
            r matches Some(d) ==> exists|s: PhlowViewSpecification, sent: PhlowObject|
                {
                    &&& first_with_selector(
                        old(self).objects@[inspected_id].object.spec_views(),
                        selector@,
                    ) matches Some(v) && s.spec_of(v)
                    &&& #[trigger] s.spec_sends(old(self).objects@[selected_id].object, Some(sent))
                    &&& d.spec_describes(sent, d.id, registered_count(old(self).objects@, d.id))
                    &&& final(self).objects@ == spec_register(old(self).objects@, d.id, sent)
                },
            r matches Some(d) ==> d.should_auto_release,
            final(self).session == old(self).session,
    {
        let inspected = match self.find_object(inspected_id) {
            Some(o) => o,
            None => {
                return None;
            },
        };
        let spec = match find_view_specification_for_object(&inspected, selector) {
            Some(s) => s,
            None => {
                return None;
            },
        };
        let selected = match self.find_object(selected_id) {
            Some(o) => o,
            None => {
                return None;
            },
        };
        match spec.retrieve_sent_item(&selected) {
            Some(sent) => Some(self.register_object(sent)),
            None => None,
        }
    }
}

} // verus!
