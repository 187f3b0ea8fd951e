//! `Block`: the unit of content. A block belongs to a page, may have a
//! parent block, carries text, typed properties, references and tags, and
//! tracks its task marker with completion and cancellation times.
//!
//! Times are milliseconds since the Unix epoch. A block's order among its
//! siblings is kept as the bit pattern of its `f64` sort key.

use crate::clock::now_millis;
use crate::content::block_segment::strs_view;
use crate::str_map::StrMap;
use crate::value_objects::{pv, BlockFormat, BlockType, PValue, Priority, PropertyValue, TaskMarker, Uuid};
use crate::errors::domain_error::DomainError;
use vstd::prelude::*;

verus! {

broadcast use vstd::seq_lib::lemma_seq_contains_after_push;

/// The contents of a property map.
pub open spec fn props_view(m: StrMap<PropertyValue>) -> Map<Seq<char>, PValue> {
    m@.map_values(|v: PropertyValue| pv(v))
}

/// A copy of a property map, with the same keys in the same order and
/// values of the same content.
pub fn clone_props(m: &StrMap<PropertyValue>) -> (res: StrMap<PropertyValue>)
    requires
        m.wf(),
    ensures
        res.wf(),
        res.keys_seq() == m.keys_seq(),
        props_view(res) == props_view(*m),
{
    proof {
        m.lemma_view();
    }
    let mut out: StrMap<PropertyValue> = StrMap::new();
    let mut i: usize = 0;
    while i < m.len()
        invariant
            m.wf(),
            out.wf(),
            i <= m.size(),
            m.size() == m.keys_seq().len(),
            m.keys_seq().no_duplicates(),
            forall|j: int| 0 <= j < m.size() ==> #[trigger] m.keys_seq()[j] == m.key_at(j),
            forall|k: Seq<char>| m@.contains_key(k) <==> m.keys_seq().contains(k),
            out.keys_seq() == m.keys_seq().take(i as int),
            forall|k: Seq<char>| #[trigger] out@.contains_key(k) <==> m.keys_seq().take(i as int).contains(k),
            forall|k: Seq<char>| #[trigger] out@.contains_key(k) ==> pv(out@[k]) == pv(m@[k]),
        decreases m.size() - i,
    {
        let k = m.key(i);
        let v = m.value(i);
        proof {
            assert(m.keys_seq().take(i + 1) =~= m.keys_seq().take(i as int).push(k@));
            assert(!m.keys_seq().take(i as int).contains(k@)) by {
                if m.keys_seq().take(i as int).contains(k@) {
                    let q = choose|q: int| 0 <= q < i && m.keys_seq().take(i as int)[q] == k@;
                    assert(m.keys_seq()[q] == m.keys_seq()[i as int]);
                }
            }
        }
        out.insert(k.clone(), v.clone());
        i = i + 1;
    }
    proof {
        assert(m.keys_seq().take(m.size() as int) =~= m.keys_seq());
        assert(props_view(out) =~= props_view(*m));
    }
    out
}

/// Whether `a` is a copy of `b`: equal fields, equal texts and tags, and
/// property maps with the same keys in the same order and values of the
/// same content.
pub open spec fn same_block(a: Block, b: Block) -> bool {
    &&& a.id == b.id
    &&& a.page_id == b.page_id
    &&& a.parent_id == b.parent_id
    &&& a.order == b.order
    &&& a.level == b.level
    &&& a.format == b.format
    &&& a.block_type == b.block_type
    &&& a.marker == b.marker
    &&& a.priority == b.priority
    &&& a.content@ == b.content@
    &&& a.properties.wf()
    &&& a.properties.keys_seq() == b.properties.keys_seq()
    &&& props_view(a.properties) == props_view(b.properties)
    &&& a.refs@ == b.refs@
    &&& strs_view(a.tags@) == strs_view(b.tags@)
    &&& a.scheduled == b.scheduled
    &&& a.deadline == b.deadline
    &&& a.start_time == b.start_time
    &&& a.repeated == b.repeated
    &&& a.logbook == b.logbook
    &&& a.completed_at == b.completed_at
    &&& a.cancelled_at == b.cancelled_at
    &&& a.collapsed == b.collapsed
    &&& a.created_at == b.created_at
    &&& a.updated_at == b.updated_at
}

/// The bit pattern of the `f64` value `1.0`.
pub const ORDER_ONE: u64 = 0x3FF0_0000_0000_0000;

/// A block of content.
#[derive(Debug, Clone, PartialEq)]
pub struct Block {
    /// Identifier.
    pub id: Uuid,
    /// The page it belongs to.
    pub page_id: Uuid,
    /// Its parent block, if nested.
    pub parent_id: Option<Uuid>,
    /// Sort key among siblings (bit pattern of an `f64`).
    pub order: u64,
    /// Nesting level: 1 at the top.
    pub level: u8,
    /// Source format.
    pub format: BlockFormat,
    /// Visual kind.
    pub block_type: BlockType,
    /// Task marker, if it is a task.
    pub marker: Option<TaskMarker>,
    /// Task priority.
    pub priority: Option<Priority>,
    /// Text content.
    pub content: String,
    /// Typed properties.
    pub properties: StrMap<PropertyValue>,
    /// Blocks and pages it refers to, each once.
    pub refs: Vec<Uuid>,
    /// Tags, each once.
    pub tags: Vec<String>,
    /// When it is scheduled.
    pub scheduled: Option<i64>,
    /// Its deadline.
    pub deadline: Option<i64>,
    /// When work on it started.
    pub start_time: Option<i64>,
    /// Repetition time.
    pub repeated: Option<i64>,
    /// Time of the last terminal transition (done or cancelled).
    pub logbook: Option<i64>,
    /// When it was marked done.
    pub completed_at: Option<i64>,
    /// When it was cancelled.
    pub cancelled_at: Option<i64>,
    /// Whether its children are hidden.
    pub collapsed: bool,
    /// Creation time.
    pub created_at: i64,
    /// Last update time.
    pub updated_at: i64,
}

/// What a new block is made from.
#[derive(Debug, Clone)]
pub struct BlockCreate {
    /// The page it belongs to.
    pub page_id: Uuid,
    /// Text content.
    pub content: String,
    /// Parent block, if nested.
    pub parent_id: Option<Uuid>,
    /// Sort key among siblings (bit pattern of an `f64`).
    pub order: u64,
    /// Task marker.
    pub marker: Option<TaskMarker>,
    /// Source format.
    pub format: BlockFormat,
    /// Visual kind.
    pub block_type: BlockType,
    /// Typed properties.
    pub properties: StrMap<PropertyValue>,
}

/// A partial update of a block; `None` leaves a field as it is.
#[derive(Debug, Clone)]
pub struct BlockUpdate {
    pub content: Option<String>,
    pub parent_id: Option<Option<Uuid>>,
    pub order: Option<u64>,
    pub level: Option<u8>,
    pub marker: Option<TaskMarker>,
    pub priority: Option<Priority>,
    pub properties: Option<StrMap<PropertyValue>>,
    pub scheduled: Option<Option<i64>>,
    pub deadline: Option<Option<i64>>,
    pub collapsed: Option<bool>,
    pub block_type: Option<BlockType>,
}

impl Default for BlockUpdate {
    /// An update that changes nothing.
    fn default() -> (res: Self)
        ensures
            res.content is None,
            res.parent_id is None,
            res.order is None,
            res.level is None,
            res.marker is None,
            res.priority is None,
            res.properties is None,
            res.scheduled is None,
            res.deadline is None,
            res.collapsed is None,
            res.block_type is None,
    {
        BlockUpdate {
            content: None,
            parent_id: None,
            order: None,
            level: None,
            marker: None,
            priority: None,
            properties: None,
            scheduled: None,
            deadline: None,
            collapsed: None,
            block_type: None,
        }
    }
}

impl Default for BlockCreate {
    /// An empty top-level Markdown paragraph on a fresh random page, at
    /// order `1.0`.
    fn default() -> (res: Self)
        ensures
            res.content@.len() == 0,
            res.parent_id is None,
            res.order == ORDER_ONE,
            res.marker is None,
            res.format == BlockFormat::Markdown,
            res.block_type == BlockType::Paragraph,
            res.properties.wf(),
            res.properties@ == Map::<Seq<char>, PropertyValue>::empty(),
    {
        BlockCreate {
            page_id: Uuid::new_v4(),
            content: String::new(),
            parent_id: None,
            order: ORDER_ONE,
            marker: None,
            format: BlockFormat::Markdown,
            block_type: BlockType::Paragraph,
            properties: StrMap::new(),
        }
    }
}

/// The completion, cancellation and logbook times after the marker goes
/// from `old` to `new` at time `now`, starting from `(c, x, l)`.
///
/// Becoming done sets the completion and logbook times; becoming cancelled
/// sets the cancellation and logbook times. Otherwise, leaving done clears
/// the completion and logbook times, and leaving cancelled clears the
/// cancellation and logbook times. Going from done to cancelled also clears
/// the completion time, and from cancelled to done the cancellation time.
pub open spec fn marker_transition(
    old: Option<TaskMarker>,
    new: Option<TaskMarker>,
    now: i64,
    c: Option<i64>,
    x: Option<i64>,
    l: Option<i64>,
) -> (Option<i64>, Option<i64>, Option<i64>) {
    let (c1, x1, l1) = if new == Some(TaskMarker::Done) {
        (Some(now), x, Some(now))
    } else if new == Some(TaskMarker::Cancelled) {
        (c, Some(now), Some(now))
    } else if old == Some(TaskMarker::Done) {
        (None, x, None)
    } else if old == Some(TaskMarker::Cancelled) {
        (c, None, None)
    } else {
        (c, x, l)
    };
    let c2 = if old == Some(TaskMarker::Done) && new == Some(TaskMarker::Cancelled) {
        None
    } else {
        c1
    };
    let x2 = if old == Some(TaskMarker::Cancelled) && new == Some(TaskMarker::Done) {
        None
    } else {
        x1
    };
    (c2, x2, l1)
}

/// The task state machine: completing a task stamps its completion and
/// logbook times and clears a cancellation it leaves; cancelling stamps the
/// cancellation and logbook times and clears a completion it leaves; moving
/// from done or cancelled to any other state clears that state's time and
/// the logbook; a change between two other states keeps all three times.
pub proof fn lemma_marker_transition_rules(
    old: Option<TaskMarker>,
    new: Option<TaskMarker>,
    now: i64,
    c: Option<i64>,
    x: Option<i64>,
    l: Option<i64>,
)
    ensures
        ({
            let t = marker_transition(old, new, now, c, x, l);
            &&& new == Some(TaskMarker::Done) ==> t.0 == Some(now) && t.2 == Some(now) && (old
                == Some(TaskMarker::Cancelled) ==> t.1 is None)
            &&& new == Some(TaskMarker::Cancelled) ==> t.1 == Some(now) && t.2 == Some(now) && (
            old == Some(TaskMarker::Done) ==> t.0 is None)
            &&& (old == Some(TaskMarker::Done) && new != Some(TaskMarker::Done) && new != Some(
                TaskMarker::Cancelled)) ==> t.0 is None && t.1 == x && t.2 is None
            &&& (old == Some(TaskMarker::Cancelled) && new != Some(TaskMarker::Done) && new
                != Some(TaskMarker::Cancelled)) ==> t.1 is None && t.0 == c && t.2 is None
            &&& (old != Some(TaskMarker::Done) && old != Some(TaskMarker::Cancelled) && new != Some(
                TaskMarker::Done) && new != Some(TaskMarker::Cancelled)) ==> t == (c, x, l)
        }),
{
}

/// The completion, cancellation and logbook times after a marker change
/// at `now` (see `marker_transition`).
pub fn transition_times(
    old_marker: Option<TaskMarker>,
    new_marker: Option<TaskMarker>,
    now: i64,
    completed_at: Option<i64>,
    cancelled_at: Option<i64>,
    logbook: Option<i64>,
) -> (res: (Option<i64>, Option<i64>, Option<i64>))
    ensures
        res == marker_transition(old_marker, new_marker, now, completed_at, cancelled_at, logbook),
{
    let mut c = completed_at;
    let mut x = cancelled_at;
    let mut l = logbook;
    if new_marker == Some(TaskMarker::Done) {
        c = Some(now);
        l = Some(now);
    } else if new_marker == Some(TaskMarker::Cancelled) {
        x = Some(now);
        l = Some(now);
    } else if old_marker == Some(TaskMarker::Done) && new_marker != Some(TaskMarker::Done) {
        c = None;
        l = None;
    } else if old_marker == Some(TaskMarker::Cancelled) && new_marker != Some(TaskMarker::Cancelled) {
        x = None;
        l = None;
    }
    if old_marker == Some(TaskMarker::Done) && new_marker == Some(TaskMarker::Cancelled) {
        c = None;
    }
    if old_marker == Some(TaskMarker::Cancelled) && new_marker == Some(TaskMarker::Done) {
        x = None;
    }
    (c, x, l)
}

/// The first position of a block with id `id`, from `k` on; -1 if none.
pub open spec fn find_block_from(blocks: Seq<Block>, id: Uuid, k: int) -> int
    decreases blocks.len() - k,
{
    if k < 0 || k >= blocks.len() {
        -1
    } else if blocks[k].id == id {
        k
    } else {
        find_block_from(blocks, id, k + 1)
    }
}

/// The first position of a block with id `id`; -1 if none.
pub open spec fn find_block(blocks: Seq<Block>, id: Uuid) -> int {
    find_block_from(blocks, id, 0)
}

/// Facts about `find_block_from`.
pub proof fn lemma_find_block_from(blocks: Seq<Block>, id: Uuid, k: int)
    requires
        0 <= k,
    ensures
        find_block_from(blocks, id, k) == -1 || (k <= find_block_from(blocks, id, k) < blocks.len()
            && blocks[find_block_from(blocks, id, k)].id == id),
    decreases blocks.len() - k,
{
    if k < blocks.len() && blocks[k].id != id {
        lemma_find_block_from(blocks, id, k + 1);
    }
}

/// Whether walking up from the block with id `cur`, for at most `fuel`
/// steps, reaches a block whose parent is `target`. The walk stops at an id
/// no block has.
pub open spec fn walk_reaches(blocks: Seq<Block>, cur: Uuid, target: Uuid, fuel: nat) -> bool
    decreases fuel,
{
    if fuel == 0 {
        false
    } else {
        let i = find_block(blocks, cur);
        if i < 0 {
            false
        } else if blocks[i].parent_id == Some(target) {
            true
        } else {
            match blocks[i].parent_id {
                Some(p) => walk_reaches(blocks, p, target, (fuel - 1) as nat),
                None => false,
            }
        }
    }
}

/// The ids met walking up from the block `b`, nearest first: `b`'s own id,
/// then each parent id in turn, for at most `fuel` steps; the walk stops
/// after an id no block has.
pub open spec fn ancestry(blocks: Seq<Block>, parent: Option<Uuid>, fuel: nat) -> Seq<Uuid>
    decreases fuel,
{
    if fuel == 0 {
        Seq::empty()
    } else {
        match parent {
            None => Seq::empty(),
            Some(p) => {
                let i = find_block(blocks, p);
                if i < 0 {
                    seq![p]
                } else {
                    seq![p] + ancestry(blocks, blocks[i].parent_id, (fuel - 1) as nat)
                }
            },
        }
    }
}

/// The first block with id `id`.
fn find_block_exec(blocks: &Vec<Block>, id: Uuid) -> (res: Option<usize>)
    ensures
        match res {
            Some(i) => i as int == find_block(blocks@, id),
            None => find_block(blocks@, id) == -1,
        },
{
    let mut k: usize = 0;
    while k < blocks.len()
        invariant
            k <= blocks@.len(),
            find_block(blocks@, id) == find_block_from(blocks@, id, k as int),
        decreases blocks.len() - k,
    {
        if blocks[k].id.value == id.value {
            return Some(k);
        }
        k = k + 1;
    }
    None
}

/// `b2` is `b1` after applying `u` at time `now`: each field the update
/// carries is set (a new parent also sets the level unless the update gives
/// one), the task times follow the marker state machine, the update time is
/// `now`, and every other field stays.
pub open spec fn applied_update(b1: Block, u: BlockUpdate, now: i64, b2: Block) -> bool {
    &&& b2.content == (match u.content {
        Some(c) => c,
        None => b1.content,
    })
    &&& b2.parent_id == (match u.parent_id {
        Some(p) => p,
        None => b1.parent_id,
    })
    &&& b2.order == (match u.order {
        Some(o) => o,
        None => b1.order,
    })
    &&& b2.level == (match u.level {
        Some(l) => l,
        None => match u.parent_id {
            Some(Some(_)) => if b1.level >= 2 {
                b1.level
            } else {
                2u8
            },
            Some(None) => 1u8,
            None => b1.level,
        },
    })
    &&& b2.marker == (match u.marker {
        Some(m) => Some(m),
        None => b1.marker,
    })
    &&& (b2.completed_at, b2.cancelled_at, b2.logbook) == (match u.marker {
        Some(m) => marker_transition(
            b1.marker,
            Some(m),
            now,
            b1.completed_at,
            b1.cancelled_at,
            b1.logbook,
        ),
        None => (b1.completed_at, b1.cancelled_at, b1.logbook),
    })
    &&& b2.priority == (match u.priority {
        Some(p) => Some(p),
        None => b1.priority,
    })
    &&& b2.properties == (match u.properties {
        Some(p) => p,
        None => b1.properties,
    })
    &&& b2.scheduled == (match u.scheduled {
        Some(s) => s,
        None => b1.scheduled,
    })
    &&& b2.deadline == (match u.deadline {
        Some(d) => d,
        None => b1.deadline,
    })
    &&& b2.collapsed == (match u.collapsed {
        Some(c) => c,
        None => b1.collapsed,
    })
    &&& b2.block_type == (match u.block_type {
        Some(t) => t,
        None => b1.block_type,
    })
    &&& b2.updated_at == now
    &&& b2.id == b1.id
    &&& b2.page_id == b1.page_id
    &&& b2.format == b1.format
    &&& b2.refs == b1.refs
    &&& b2.tags == b1.tags
    &&& b2.start_time == b1.start_time
    &&& b2.repeated == b1.repeated
    &&& b2.created_at == b1.created_at
}

impl Block {
    /// A new block made from `create`, with identifier `id`, created at
    /// `now`: at level 2 under a parent and 1 at the top, with no priority,
    /// references, tags or times, and not collapsed.
    pub fn new_at(create: BlockCreate, id: Uuid, now: i64) -> (res: Block)
        ensures
            res.id == id,
            res.page_id == create.page_id,
            res.parent_id == create.parent_id,
            res.order == create.order,
            res.level == (if create.parent_id is Some {
                2u8
            } else {
                1u8
            }),
            res.format == create.format,
            res.block_type == create.block_type,
            res.marker == create.marker,
            res.priority is None,
            res.content == create.content,
            res.properties == create.properties,
            res.refs@.len() == 0,
            res.tags@.len() == 0,
            res.scheduled is None,
            res.deadline is None,
            res.start_time is None,
            res.repeated is None,
            res.logbook is None,
            res.completed_at is None,
            res.cancelled_at is None,
            !res.collapsed,
            res.created_at == now,
            res.updated_at == now,
    {
        let level: u8 = if create.parent_id.is_some() {
            2
        } else {
            1
        };
        Block {
            id,
            page_id: create.page_id,
            parent_id: create.parent_id,
            order: create.order,
            level,
            format: create.format,
            block_type: create.block_type,
            marker: create.marker,
            priority: None,
            content: create.content,
            properties: create.properties,
            refs: Vec::new(),
            tags: Vec::new(),
            scheduled: None,
            deadline: None,
            start_time: None,
            repeated: None,
            logbook: None,
            completed_at: None,
            cancelled_at: None,
            collapsed: false,
            created_at: now,
            updated_at: now,
        }
    }

    /// A new block made from `create`, with a fresh random identifier,
    /// created now. It never fails.
    pub fn new(create: BlockCreate) -> (res: Result<Block, DomainError>)
        ensures
            res matches Ok(b) && b.page_id == create.page_id && b.parent_id == create.parent_id
                && b.order == create.order && b.level == (if create.parent_id is Some {
                2u8
            } else {
                1u8
            }) && b.format == create.format && b.block_type == create.block_type && b.marker
                == create.marker && b.priority is None && b.content == create.content
                && b.properties == create.properties && b.refs@.len() == 0 && b.tags@.len() == 0
                && b.logbook is None && b.completed_at is None && b.cancelled_at is None
                && !b.collapsed && b.created_at == b.updated_at,
    {
        let id = Uuid::new_v4();
        let now = now_millis();
        Ok(Self::new_at(create, id, now))
    }

    /// Applies `update` at time `now`: each given field replaces the old
    /// one; a new parent sets the level to 1 at the top and to at least 2
    /// under a parent (an explicit level then wins); a new marker applies
    /// its time side effects (see `marker_transition`); the update time
    /// becomes `now`. It never fails.
    #[verifier::rlimit(60)]
    #[verifier::spinoff_prover]
    pub fn update_at(&mut self, update: BlockUpdate, now: i64) -> (res: Result<(), DomainError>)
        ensures
            res is Ok,
            applied_update(*old(self), update, now, *final(self)),
    {
        let parent_id = match update.parent_id {
            Some(p) => p,
            None => self.parent_id,
        };
        let level = match update.level {
            Some(l) => l,
            None => match update.parent_id {
                Some(Some(_)) => if self.level >= 2 {
                    self.level
                } else {
                    2
                },
                Some(None) => 1,
                None => self.level,
            },
        };
        let (completed_at, cancelled_at, logbook) = match update.marker {
            Some(m) => transition_times(
                self.marker,
                Some(m),
                now,
                self.completed_at,
                self.cancelled_at,
                self.logbook,
            ),
            None => (self.completed_at, self.cancelled_at, self.logbook),
        };
        let marker = match update.marker {
            Some(m) => Some(m),
            None => self.marker,
        };
        let priority = match update.priority {
            Some(p) => Some(p),
            None => self.priority,
        };
        let order = match update.order {
            Some(o) => o,
            None => self.order,
        };
        let scheduled = match update.scheduled {
            Some(x) => x,
            None => self.scheduled,
        };
        let deadline = match update.deadline {
            Some(x) => x,
            None => self.deadline,
        };
        let collapsed = match update.collapsed {
            Some(x) => x,
            None => self.collapsed,
        };
        let block_type = match update.block_type {
            Some(x) => x,
            None => self.block_type,
        };
        if let Some(content) = update.content {
            self.content = content;
        }
        if let Some(properties) = update.properties {
            self.properties = properties;
        }
        self.parent_id = parent_id;
        self.level = level;
        self.order = order;
        self.marker = marker;
        self.completed_at = completed_at;
        self.cancelled_at = cancelled_at;
        self.logbook = logbook;
        self.priority = priority;
        self.scheduled = scheduled;
        self.deadline = deadline;
        self.collapsed = collapsed;
        self.block_type = block_type;
        self.updated_at = now;
        Ok(())
    }

    /// Applies `update` now (see `update_at`). It never fails.
    pub fn update(&mut self, update: BlockUpdate) -> (res: Result<(), DomainError>)
        ensures
            res is Ok,
            applied_update(*old(self), update, final(self).updated_at, *final(self)),
    {
        let now = now_millis();
        self.update_at(update, now)
    }

    /// Whether moving under `new_parent` is allowed: not under itself, not
    /// under one of its own ancestors, and not under one of its own
    /// descendants.
    pub fn can_move_to(&self, new_parent: Option<Uuid>, all_blocks: &Vec<Block>) -> (res: bool)
        ensures
            res == match new_parent {
                None => true,
                Some(p) => p != self.id && !walk_reaches(
                    all_blocks@,
                    self.id,
                    p,
                    (all_blocks@.len() + 1) as nat,
                ) && !walk_reaches(all_blocks@, p, self.id, (all_blocks@.len() + 1) as nat),
            },
    {
        match new_parent {
            None => true,
            Some(p) => {
                if p.value == self.id.value {
                    return false;
                }
                if Self::is_below(self.id, p, all_blocks) {
                    return false;
                }
                !Self::is_below(p, self.id, all_blocks)
            },
        }
    }

    /// Whether walking up from block `start` reaches a block whose parent is
    /// `target`, within one step more than there are blocks.
    fn is_below(start: Uuid, target: Uuid, blocks: &Vec<Block>) -> (res: bool)
        ensures
            res == walk_reaches(blocks@, start, target, (blocks@.len() + 1) as nat),
    {
        let mut current = start;
        let mut fuel: u128 = blocks.len() as u128 + 1;
        while fuel > 0
            invariant
                walk_reaches(blocks@, start, target, (blocks@.len() + 1) as nat) == walk_reaches(
                    blocks@,
                    current,
                    target,
                    fuel as nat,
                ),
            decreases fuel,
        {
            match find_block_exec(blocks, current) {
                None => {
                    return false;
                },
                Some(i) => {
                    proof {
                        lemma_find_block_from(blocks@, current, 0);
                    }
                    let b = &blocks[i];
                    match b.parent_id {
                        Some(p) => {
                            if p.value == target.value {
                                return true;
                            }
                            current = p;
                        },
                        None => {
                            return false;
                        },
                    }
                },
            }
            fuel = fuel - 1;
        }
        false
    }

    /// Whether `target` is this block's parent, grandparent, and so on.
    pub fn is_descendant_of(&self, target_id: Uuid, blocks: &Vec<Block>) -> (res: bool)
        ensures
            res == walk_reaches(blocks@, self.id, target_id, (blocks@.len() + 1) as nat),
    {
        Self::is_below(self.id, target_id, blocks)
    }

    /// Adds a reference if it is not there yet, updating the time to `now`
    /// when it does.
    pub fn add_ref_at(&mut self, ref_id: Uuid, now: i64)
        ensures
            old(self).refs@.contains(ref_id) ==> *final(self) == *old(self),
            !old(self).refs@.contains(ref_id) ==> *final(self) == (Block {
                refs: final(self).refs,
                updated_at: now,
                ..*old(self)
            }) && final(self).refs@ == old(self).refs@.push(ref_id),
    {
        let mut i: usize = 0;
        while i < self.refs.len()
            invariant
                i <= self.refs@.len(),
                forall|j: int| 0 <= j < i ==> self.refs@[j] != ref_id,
            decreases self.refs.len() - i,
        {
            if self.refs[i].value == ref_id.value {
                assert(self.refs@[i as int] == ref_id);
                return;
            }
            i = i + 1;
        }
        self.refs.push(ref_id);
        self.updated_at = now;
    }

    /// Adds a reference if it is not there yet.
    pub fn add_ref(&mut self, ref_id: Uuid)
        ensures
            old(self).refs@.contains(ref_id) ==> final(self).refs@ == old(self).refs@,
            !old(self).refs@.contains(ref_id) ==> final(self).refs@ == old(self).refs@.push(ref_id),
            final(self).id == old(self).id,
            final(self).tags == old(self).tags,
            final(self).content == old(self).content,
    {
        let now = now_millis();
        self.add_ref_at(ref_id, now)
    }

    /// Removes every occurrence of a reference, updating the time to `now`.
    pub fn remove_ref_at(&mut self, ref_id: Uuid, now: i64)
        ensures
            final(self).refs@ == old(self).refs@.filter(|r: Uuid| r != ref_id),
            *final(self) == (Block { refs: final(self).refs, updated_at: now, ..*old(self) }),
    {
        let ghost old_refs = self.refs@;
        let mut kept: Vec<Uuid> = Vec::new();
        let mut i: usize = 0;
        while i < self.refs.len()
            invariant
                old_refs == self.refs@,
                i <= old_refs.len(),
                kept@ == old_refs.take(i as int).filter(|r: Uuid| r != ref_id),
            decreases self.refs.len() - i,
        {
            proof {
                assert(old_refs.take(i + 1).drop_last() =~= old_refs.take(i as int));
                reveal(Seq::filter);
            }
            if self.refs[i].value != ref_id.value {
                kept.push(self.refs[i]);
            }
            i = i + 1;
        }
        assert(old_refs.take(old_refs.len() as int) =~= old_refs);
        self.refs = kept;
        self.updated_at = now;
    }

    /// Removes every occurrence of a reference.
    pub fn remove_ref(&mut self, ref_id: Uuid)
        ensures
            final(self).refs@ == old(self).refs@.filter(|r: Uuid| r != ref_id),
            final(self).id == old(self).id,
            final(self).tags == old(self).tags,
    {
        let now = now_millis();
        self.remove_ref_at(ref_id, now)
    }

    /// Adds a tag if it is not there yet, updating the time to `now` when it
    /// does.
    pub fn add_tag_at(&mut self, tag: &str, now: i64)
        ensures
            strs_view(old(self).tags@).contains(tag@) ==> *final(self) == *old(self),
            !strs_view(old(self).tags@).contains(tag@) ==> *final(self) == (Block {
                tags: final(self).tags,
                updated_at: now,
                ..*old(self)
            }) && strs_view(final(self).tags@) == strs_view(old(self).tags@).push(tag@),
    {
        let ghost tv = strs_view(self.tags@);
        let mut i: usize = 0;
        while i < self.tags.len()
            invariant
                tv == strs_view(self.tags@),
                i <= self.tags@.len(),
                forall|j: int| 0 <= j < i ==> tv[j] != tag@,
            decreases self.tags.len() - i,
        {
            if crate::text::str_eq(self.tags[i].as_str(), tag) {
                assert(tv[i as int] == tag@);
                return;
            }
            i = i + 1;
        }
        let t = tag.to_owned();
        proof {
            assert(strs_view(self.tags@.push(t)) =~= tv.push(tag@));
        }
        self.tags.push(t);
        self.updated_at = now;
    }

    /// Adds a tag if it is not there yet.
    pub fn add_tag(&mut self, tag: &str)
        ensures
            strs_view(old(self).tags@).contains(tag@) ==> final(self).tags == old(self).tags,
            !strs_view(old(self).tags@).contains(tag@) ==> strs_view(final(self).tags@) == strs_view(
                old(self).tags@,
            ).push(tag@),
            final(self).refs == old(self).refs,
            final(self).id == old(self).id,
    {
        let now = now_millis();
        self.add_tag_at(tag, now)
    }

    /// Whether the block is a task (has a marker).
    pub fn is_task(&self) -> (res: bool)
        ensures
            res == self.marker is Some,
    {
        self.marker.is_some()
    }

    /// Whether the block is a finished task: done or cancelled.
    pub fn is_done(&self) -> (res: bool)
        ensures
            res == (self.marker == Some(TaskMarker::Done) || self.marker == Some(
                TaskMarker::Cancelled,
            )),
    {
        self.marker == Some(TaskMarker::Done) || self.marker == Some(TaskMarker::Cancelled)
    }

    /// The ids from the root down to this block: this block's id last,
    /// preceded by its parent id, that parent's parent id, and so on; the
    /// walk stops after an id no block has, and takes at most one step more
    /// than there are blocks.
    pub fn get_path(&self, all_blocks: &Vec<Block>) -> (res: Vec<Uuid>)
        ensures
            res@ == (seq![self.id] + ancestry(
                all_blocks@,
                self.parent_id,
                (all_blocks@.len() + 1) as nat,
            )).reverse(),
    {
        let ghost total = ancestry(all_blocks@, self.parent_id, (all_blocks@.len() + 1) as nat);
        let mut up: Vec<Uuid> = Vec::new();
        up.push(self.id);
        let mut parent = self.parent_id;
        let mut fuel: u128 = all_blocks.len() as u128 + 1;
        while fuel > 0 && parent.is_some()
            invariant
                seq![self.id] + total == up@ + ancestry(all_blocks@, parent, fuel as nat),
            decreases fuel,
        {
            match parent {
                None => {},
                Some(p) => {
                    up.push(p);
                    match find_block_exec(all_blocks, p) {
                        None => {
                            proof {
                                assert(up@ + ancestry(all_blocks@, None, (fuel - 1) as nat)
                                    =~= up@);
                            }
                            parent = None;
                        },
                        Some(i) => {
                            proof {
                                lemma_find_block_from(all_blocks@, p, 0);
                            }
                            parent = all_blocks[i].parent_id;
                        },
                    }
                },
            }
            fuel = fuel - 1;
            proof {
                assert(seq![self.id] + total =~= up@ + ancestry(all_blocks@, parent, fuel as nat));
            }
        }
        proof {
            assert(seq![self.id] + total =~= up@);
        }
        let mut path: Vec<Uuid> = Vec::new();
        let mut k: usize = up.len();
        while k > 0
            invariant
                k <= up@.len(),
                path@ == up@.subrange(k as int, up@.len() as int).reverse(),
            decreases k,
        {
            k = k - 1;
            path.push(up[k]);
            assert(up@.subrange(k as int, up@.len() as int).reverse() =~= up@.subrange(
                k + 1,
                up@.len() as int,
            ).reverse().push(up@[k as int]));
        }
        assert(up@.subrange(0, up@.len() as int) =~= up@);
        path
    }
}

impl Block {
    /// A copy of this block.
    pub fn duplicate(&self) -> (res: Block)
        requires
            self.properties.wf(),
        ensures
            same_block(res, *self),
    {
        let mut refs: Vec<Uuid> = Vec::new();
        let mut i: usize = 0;
        while i < self.refs.len()
            invariant
                i <= self.refs@.len(),
                refs@ == self.refs@.take(i as int),
            decreases self.refs.len() - i,
        {
            proof {
                assert(self.refs@.take(i + 1) =~= self.refs@.take(i as int).push(self.refs@[i as int]));
            }
            refs.push(self.refs[i]);
            i = i + 1;
        }
        assert(self.refs@.take(self.refs@.len() as int) =~= self.refs@);
        Block {
            id: self.id,
            page_id: self.page_id,
            parent_id: self.parent_id,
            order: self.order,
            level: self.level,
            format: self.format,
            block_type: self.block_type,
            marker: self.marker,
            priority: self.priority,
            content: self.content.clone(),
            properties: clone_props(&self.properties),
            refs,
            tags: crate::content::block_segment::clone_strs(&self.tags),
            scheduled: self.scheduled,
            deadline: self.deadline,
            start_time: self.start_time,
            repeated: self.repeated,
            logbook: self.logbook,
            completed_at: self.completed_at,
            cancelled_at: self.cancelled_at,
            collapsed: self.collapsed,
            created_at: self.created_at,
            updated_at: self.updated_at,
        }
    }
}

impl Default for Block {
    /// An empty top-level Markdown paragraph with fresh random identifiers,
    /// created now, at order 0.
    fn default() -> (res: Self)
        ensures
            res.parent_id is None,
            res.order == 0,
            res.level == 1,
            res.format == BlockFormat::Markdown,
            res.block_type == BlockType::Paragraph,
            res.marker is None,
            res.priority is None,
            res.content@.len() == 0,
            res.properties.wf(),
            res.properties@ == Map::<Seq<char>, PropertyValue>::empty(),
            res.refs@.len() == 0,
            res.tags@.len() == 0,
            res.logbook is None,
            res.completed_at is None,
            res.cancelled_at is None,
            !res.collapsed,
    {
        let created = now_millis();
        let updated = now_millis();
        Block {
            id: Uuid::new_v4(),
            page_id: Uuid::new_v4(),
            parent_id: None,
            order: 0,
            level: 1,
            format: BlockFormat::Markdown,
            block_type: BlockType::Paragraph,
            marker: None,
            priority: None,
            content: String::new(),
            properties: StrMap::new(),
            refs: Vec::new(),
            tags: Vec::new(),
            scheduled: None,
            deadline: None,
            start_time: None,
            repeated: None,
            logbook: None,
            completed_at: None,
            cancelled_at: None,
            collapsed: false,
            created_at: created,
            updated_at: updated,
        }
    }
}

} // verus!
