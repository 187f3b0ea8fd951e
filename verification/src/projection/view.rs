//! Projection views: a block's visible surface (text, links, children,
//! decorations, conflicts and view properties) and the additions a
//! contract composes onto it.

use crate::entities::block::{props_view, Block};
use crate::entities::template_contract::{key_normal_form, PropertyKey};
use crate::projection::conflict::ProjectionConflict;
use crate::str_map::StrMap;
use crate::value_objects::{pv, PValue, PropertyValue, Uuid};
use vstd::prelude::*;

verus! {

broadcast use vstd::seq_lib::lemma_seq_contains_after_push;

/// The kind of a link.
#[derive(Debug, Clone, Copy, PartialEq, Eq, Hash, Structural)]
pub enum LinkKind {
    /// An external URL.
    External,
    /// A media file.
    Media,
    /// A page reference.
    PageRef,
    /// A block reference.
    BlockRef,
}

impl Default for LinkKind {
    /// `External`.
    fn default() -> (res: Self)
        ensures
            res == LinkKind::External,
    {
        LinkKind::External
    }
}

/// A link shown on a block.
#[derive(Debug, Clone, PartialEq, Eq, Hash)]
pub struct LinkView {
    /// Where it points.
    pub url: String,
    /// What it shows.
    pub label: String,
    /// Its kind.
    pub kind: LinkKind,
}

/// The kind of a decoration.
#[derive(Debug, Clone, Copy, PartialEq, Eq, Hash, Structural)]
pub enum DecorationKind {
    /// A task checkbox.
    TaskCheckbox,
    /// A status badge.
    StatusBadge,
    /// A media preview.
    MediaPreview,
    /// A heading anchor.
    HeadingAnchor,
    /// A date indicator.
    DateIndicator,
    /// A link affordance.
    LinkAffordance,
    /// A generic badge.
    GenericBadge,
}

/// A visual annotation on a block, tied to one of its properties.
#[derive(Debug, Clone, PartialEq)]
pub struct Decoration {
    /// Its kind.
    pub kind: DecorationKind,
    /// The property it shows.
    pub target: PropertyKey,
    /// The value it shows.
    pub value: PropertyValue,
    /// Its weight.
    pub weight: u8,
}

/// A block's complete visible surface.
#[derive(Debug, Clone, PartialEq)]
pub struct ProjectionView {
    /// The text.
    pub text: String,
    /// Links.
    pub links: Vec<LinkView>,
    /// Child and referenced blocks.
    pub children: Vec<Uuid>,
    /// Decorations.
    pub decorations: Vec<Decoration>,
    /// Resolution conflicts.
    pub conflicts: Vec<ProjectionConflict>,
    /// View properties, by normalized key.
    pub properties: StrMap<PropertyValue>,
}

/// The block's properties under their normalized keys (keys that normalize
/// to nothing are dropped; a later key wins over an earlier one that
/// normalizes the same).
pub open spec fn normalized_props(keys: Seq<Seq<char>>, m: Map<Seq<char>, PValue>) -> Map<
    Seq<char>,
    PValue,
>
    decreases keys.len(),
{
    if keys.len() == 0 {
        Map::empty()
    } else {
        let r = normalized_props(keys.drop_last(), m);
        let k = keys.last();
        if key_normal_form(k).len() > 0 {
            r.insert(key_normal_form(k), m[k])
        } else {
            r
        }
    }
}

/// Builds a view, starting from a block's base surface.
#[derive(Debug)]
pub struct ProjectionViewBuilder {
    text: String,
    links: Vec<LinkView>,
    children: Vec<Uuid>,
    decorations: Vec<Decoration>,
    conflicts: Vec<ProjectionConflict>,
    properties: StrMap<PropertyValue>,
}

impl ProjectionViewBuilder {
    /// The view the builder would build.
    pub closed spec fn text_view(&self) -> Seq<char> {
        self.text@
    }

    /// The links so far.
    pub closed spec fn links_view(&self) -> Seq<LinkView> {
        self.links@
    }

    /// The children.
    pub closed spec fn children_view(&self) -> Seq<Uuid> {
        self.children@
    }

    /// The decorations so far.
    pub closed spec fn decorations_view(&self) -> Seq<Decoration> {
        self.decorations@
    }

    /// The conflicts so far.
    pub closed spec fn conflicts_view(&self) -> Seq<ProjectionConflict> {
        self.conflicts@
    }

    /// The view properties so far.
    pub closed spec fn props(&self) -> Map<Seq<char>, PValue> {
        props_view(self.properties)
    }

    /// The builder is well formed.
    pub closed spec fn wf(&self) -> bool {
        self.properties.wf()
    }

    /// A builder holding the block's base surface: its content as text, its
    /// references as children, its properties under normalized keys, and
    /// no links, decorations or conflicts.
    pub fn new(block: &Block) -> (res: ProjectionViewBuilder)
        requires
            block.properties.wf(),
        ensures
            res.wf(),
            res.text_view() == block.content@,
            res.children_view() == block.refs@,
            res.links_view().len() == 0,
            res.decorations_view().len() == 0,
            res.conflicts_view().len() == 0,
            res.props() == normalized_props(
                block.properties.keys_seq(),
                props_view(block.properties),
            ),
    {
        let m = &block.properties;
        proof {
            m.lemma_view();
        }
        let ghost keys = m.keys_seq();
        let mut props: StrMap<PropertyValue> = StrMap::new();
        let mut i: usize = 0;
        while i < m.len()
            invariant
                m.wf(),
                props.wf(),
                keys == m.keys_seq(),
                i <= m.size(),
                m.size() == keys.len(),
                forall|j: int| 0 <= j < m.size() ==> #[trigger] keys[j] == m.key_at(j),
                forall|k: Seq<char>| m@.contains_key(k) <==> keys.contains(k),
                props_view(props) == normalized_props(keys.take(i as int), props_view(*m)),
            decreases m.size() - i,
        {
            let k = m.key(i);
            let v = m.value(i);
            proof {
                assert(keys.take(i + 1).drop_last() =~= keys.take(i as int));
                assert(keys.take(i + 1).last() == k@);
                assert(keys.contains(k@));
            }
            match PropertyKey::new(k.as_str()) {
                Ok(key) => {
                    let c = v.clone();
                    let ks = key.into_string();
                    props.insert(ks, c);
                    proof {
                        assert(props_view(props) =~= normalized_props(keys.take(i + 1), props_view(*m)));
                    }
                },
                Err(_) => {},
            }
            i = i + 1;
        }
        assert(keys.take(m.size() as int) =~= keys);
        let mut children: Vec<Uuid> = Vec::new();
        let mut j: usize = 0;
        while j < block.refs.len()
            invariant
                j <= block.refs@.len(),
                children@ == block.refs@.take(j as int),
            decreases block.refs.len() - j,
        {
            proof {
                assert(block.refs@.take(j + 1) =~= block.refs@.take(j as int).push(block.refs@[j as int]));
            }
            children.push(block.refs[j]);
            j = j + 1;
        }
        assert(block.refs@.take(block.refs@.len() as int) =~= block.refs@);
        ProjectionViewBuilder {
            text: block.content.clone(),
            links: Vec::new(),
            children,
            decorations: Vec::new(),
            conflicts: Vec::new(),
            properties: props,
        }
    }

    /// Adds a link.
    pub fn add_link(self, link: LinkView) -> (res: ProjectionViewBuilder)
        requires
            self.wf(),
        ensures
            res.wf(),
            res.text_view() == self.text_view(),
            res.links_view() == self.links_view().push(link),
            res.children_view() == self.children_view(),
            res.decorations_view() == self.decorations_view(),
            res.conflicts_view() == self.conflicts_view(),
            res.props() == self.props(),
    {
        let mut s = self;
        s.links.push(link);
        s
    }

    /// Adds a decoration.
    pub fn add_decoration(self, decoration: Decoration) -> (res: ProjectionViewBuilder)
        requires
            self.wf(),
        ensures
            res.wf(),
            res.text_view() == self.text_view(),
            res.links_view() == self.links_view(),
            res.children_view() == self.children_view(),
            res.decorations_view() == self.decorations_view().push(decoration),
            res.conflicts_view() == self.conflicts_view(),
            res.props() == self.props(),
    {
        let mut s = self;
        s.decorations.push(decoration);
        s
    }

    /// Adds a conflict.
    pub fn add_conflict(self, conflict: ProjectionConflict) -> (res: ProjectionViewBuilder)
        requires
            self.wf(),
        ensures
            res.wf(),
            res.text_view() == self.text_view(),
            res.links_view() == self.links_view(),
            res.children_view() == self.children_view(),
            res.decorations_view() == self.decorations_view(),
            res.conflicts_view() == self.conflicts_view().push(conflict),
            res.props() == self.props(),
    {
        let mut s = self;
        s.conflicts.push(conflict);
        s
    }

    /// Sets a view property.
    pub fn add_property(self, key: PropertyKey, value: PropertyValue) -> (res: ProjectionViewBuilder)
        requires
            self.wf(),
        ensures
            res.wf(),
            res.text_view() == self.text_view(),
            res.links_view() == self.links_view(),
            res.children_view() == self.children_view(),
            res.decorations_view() == self.decorations_view(),
            res.conflicts_view() == self.conflicts_view(),
            res.props() == self.props().insert(key@, pv(value)),
    {
        let mut s = self;
        let ghost before = props_view(s.properties);
        s.properties.insert(key.into_string(), value);
        assert(props_view(s.properties) =~= before.insert(key@, pv(value)));
        s
    }

    /// The view.
    pub fn build(self) -> (res: ProjectionView)
        requires
            self.wf(),
        ensures
            res.properties.wf(),
            res.text@ == self.text_view(),
            res.links@ == self.links_view(),
            res.children@ == self.children_view(),
            res.decorations@ == self.decorations_view(),
            res.conflicts@ == self.conflicts_view(),
            props_view(res.properties) == self.props(),
    {
        ProjectionView {
            text: self.text,
            links: self.links,
            children: self.children,
            decorations: self.decorations,
            conflicts: self.conflicts,
            properties: self.properties,
        }
    }
}

/// The additions one contract makes to a view.
#[derive(Debug, Clone, PartialEq)]
pub struct ProjectionViewDelta {
    /// Decorations to add.
    pub decorations: Vec<Decoration>,
    /// View properties to set, in order.
    pub view_properties: Vec<(PropertyKey, PropertyValue)>,
    /// Conflicts to add.
    pub conflicts: Vec<ProjectionConflict>,
}

/// `m` with each pair set in turn.
pub open spec fn set_pairs(m: Map<Seq<char>, PValue>, pairs: Seq<(PropertyKey, PropertyValue)>) -> Map<
    Seq<char>,
    PValue,
>
    decreases pairs.len(),
{
    if pairs.len() == 0 {
        m
    } else {
        set_pairs(m, pairs.drop_last()).insert(pairs.last().0@, pv(pairs.last().1))
    }
}

impl ProjectionViewDelta {
    /// No additions.
    pub fn empty() -> (res: ProjectionViewDelta)
        ensures
            res.decorations@.len() == 0,
            res.view_properties@.len() == 0,
            res.conflicts@.len() == 0,
    {
        ProjectionViewDelta {
            decorations: Vec::new(),
            view_properties: Vec::new(),
            conflicts: Vec::new(),
        }
    }

    /// Composes these additions onto `base`: the decorations and conflicts
    /// are appended to the base's, the view properties set over the base's
    /// in order, and the text, links and children kept.
    pub fn compose_on(self, base: ProjectionView) -> (res: ProjectionView)
        requires
            base.properties.wf(),
        ensures
            res.properties.wf(),
            res.text == base.text,
            res.links == base.links,
            res.children == base.children,
            res.decorations@ == base.decorations@ + self.decorations@,
            res.conflicts@ == base.conflicts@ + self.conflicts@,
            props_view(res.properties) == set_pairs(
                props_view(base.properties),
                self.view_properties@,
            ),
    {
        let ghost bd = base.decorations@;
        let ghost bc = base.conflicts@;
        let ghost bp = props_view(base.properties);
        let ghost pairs = self.view_properties@;
        let ProjectionView { text, links, children, decorations, conflicts, properties } = base;
        let ProjectionViewDelta { decorations: mut dd, view_properties, conflicts: mut dc } = self;
        let mut decorations = decorations;
        decorations.append(&mut dd);
        let mut conflicts = conflicts;
        conflicts.append(&mut dc);
        let mut properties = properties;
        let mut rest = view_properties;
        let n = rest.len();
        let mut i: usize = 0;
        while i < n
            invariant
                properties.wf(),
                n == pairs.len(),
                i <= n,
                rest@ == pairs.subrange(i as int, n as int),
                props_view(properties) == set_pairs(bp, pairs.take(i as int)),
            decreases n - i,
        {
            let (k, v) = rest.remove(0);
            proof {
                assert(pairs.take(i + 1).drop_last() =~= pairs.take(i as int));
                assert(rest@ =~= pairs.subrange(i + 1, n as int));
            }
            let ghost before = props_view(properties);
            let ghost kv = k@;
            let ghost vv = pv(v);
            properties.insert(k.into_string(), v);
            proof {
                assert(props_view(properties) =~= before.insert(kv, vv));
            }
            i = i + 1;
        }
        assert(pairs.take(n as int) =~= pairs);
        ProjectionView { text, links, children, decorations, conflicts, properties }
    }
}

impl Default for ProjectionViewDelta {
    /// No additions.
    fn default() -> (res: Self)
        ensures
            res.decorations@.len() == 0,
            res.view_properties@.len() == 0,
            res.conflicts@.len() == 0,
    {
        ProjectionViewDelta::empty()
    }
}

/// Composing never removes anything from the base: its decorations and
/// conflicts stay first, in order, and a base property keeps its value
/// unless the additions set that key.
pub proof fn lemma_compose_keeps_base(
    base_decorations: Seq<Decoration>,
    delta_decorations: Seq<Decoration>,
    base_props: Map<Seq<char>, PValue>,
    pairs: Seq<(PropertyKey, PropertyValue)>,
    k: Seq<char>,
)
    ensures
        (base_decorations + delta_decorations).take(base_decorations.len() as int)
            == base_decorations,
        base_props.contains_key(k) ==> set_pairs(base_props, pairs).contains_key(k),
        base_props.contains_key(k) && (forall|i: int| 0 <= i < pairs.len() ==> (#[trigger] pairs[i]).0@ != k)
            ==> set_pairs(base_props, pairs)[k] == base_props[k],
    decreases pairs.len(),
{
    assert((base_decorations + delta_decorations).take(base_decorations.len() as int)
        =~= base_decorations);
    if pairs.len() > 0 {
        lemma_compose_keeps_base(base_decorations, delta_decorations, base_props, pairs.drop_last(), k);
        if forall|i: int| 0 <= i < pairs.len() ==> (#[trigger] pairs[i]).0@ != k {
            assert forall|i: int| 0 <= i < pairs.drop_last().len() implies (#[trigger] pairs.drop_last()[i]).0@ != k by {
                assert(pairs.drop_last()[i] == pairs[i]);
            }
            assert(pairs[pairs.len() - 1].0@ != k);
        }
    }
}

/// Composing the empty additions gives the base back.
pub proof fn lemma_compose_empty(base_props: Map<Seq<char>, PValue>)
    ensures
        set_pairs(base_props, Seq::empty()) == base_props,
{
}

} // verus!
