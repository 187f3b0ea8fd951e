//! Domain events: what happened to blocks, pages and watched files,
//! published to the application's event bus.

use crate::value_objects::Uuid;
use vstd::prelude::*;

verus! {

/// The kind of change to a watched file.
#[derive(Debug, Clone, Copy, PartialEq, Eq, Structural)]
pub enum FileEventType {
    /// A file was created.
    Created,
    /// A file was modified.
    Modified,
    /// A file was deleted.
    Deleted,
}

/// A watched file was created, modified or deleted. The time is in
/// milliseconds since the Unix epoch.
#[derive(Debug, Clone)]
pub struct FileChanged {
    /// Path of the file.
    pub path: String,
    /// What happened to it.
    pub event_type: FileEventType,
    /// When the change was seen.
    pub timestamp: i64,
}

/// The events published on the application's event bus.
#[derive(Debug, Clone)]
pub enum AppEvent {
    /// A watched file changed.
    FileChanged(FileChanged),
    /// A block was created.
    BlockCreated(BlockCreated),
    /// A block was updated.
    BlockUpdated(BlockUpdated),
    /// A block was deleted.
    BlockDeleted(BlockDeleted),
    /// A block was moved.
    BlockMoved(BlockMoved),
    /// A page was created.
    PageCreated(PageCreated),
    /// A page was renamed.
    PageRenamed(PageRenamed),
    /// A page was deleted.
    PageDeleted(PageDeleted),
}

/// What every domain event tells: its name and the entity it is about.
pub trait DomainEvent {
    /// The event's name, `entity.action`.
    fn event_name(&self) -> &'static str;

    /// The entity the event is about.
    fn entity_id(&self) -> Uuid;
}

/// A new block was created.
#[derive(Debug, Clone)]
pub struct BlockCreated {
    /// The new block.
    pub block_id: Uuid,
    /// Its page.
    pub page_id: Uuid,
    /// Its parent block, if any.
    pub parent_id: Option<Uuid>,
}

/// A block was modified.
#[derive(Debug, Clone)]
pub struct BlockUpdated {
    /// The block.
    pub block_id: Uuid,
    /// Names of the fields that changed.
    pub changed_fields: Vec<&'static str>,
}

/// A block was deleted.
#[derive(Debug, Clone)]
pub struct BlockDeleted {
    /// The block.
    pub block_id: Uuid,
    /// Its page.
    pub page_id: Uuid,
}

/// A block changed parent or position.
#[derive(Debug, Clone)]
pub struct BlockMoved {
    /// The block.
    pub block_id: Uuid,
    /// The parent before the move.
    pub old_parent_id: Option<Uuid>,
    /// The parent after the move.
    pub new_parent_id: Option<Uuid>,
    /// The order before the move (bits of the `f64` sort key).
    pub old_order: u64,
    /// The order after the move (bits of the `f64` sort key).
    pub new_order: u64,
}

/// A new page was created.
#[derive(Debug, Clone)]
pub struct PageCreated {
    /// The page.
    pub page_id: Uuid,
    /// Its name.
    pub name: String,
    /// Whether it is a journal page.
    pub is_journal: bool,
}

/// A page was renamed.
#[derive(Debug, Clone)]
pub struct PageRenamed {
    /// The page.
    pub page_id: Uuid,
    /// The name before.
    pub old_name: String,
    /// The name after.
    pub new_name: String,
}

/// A page was deleted.
#[derive(Debug, Clone)]
pub struct PageDeleted {
    /// The page.
    pub page_id: Uuid,
    /// Its name.
    pub name: String,
}

impl DomainEvent for BlockCreated {
    /// `block.created`.
    fn event_name(&self) -> (res: &'static str)
        ensures
            res@ == "block.created"@,
    {
        "block.created"
    }

    /// The block.
    fn entity_id(&self) -> (res: Uuid)
        ensures
            res == self.block_id,
    {
        self.block_id
    }
}

impl DomainEvent for BlockUpdated {
    /// `block.updated`.
    fn event_name(&self) -> (res: &'static str)
        ensures
            res@ == "block.updated"@,
    {
        "block.updated"
    }

    /// The block.
    fn entity_id(&self) -> (res: Uuid)
        ensures
            res == self.block_id,
    {
        self.block_id
    }
}

impl DomainEvent for BlockDeleted {
    /// `block.deleted`.
    fn event_name(&self) -> (res: &'static str)
        ensures
            res@ == "block.deleted"@,
    {
        "block.deleted"
    }

    /// The block.
    fn entity_id(&self) -> (res: Uuid)
        ensures
            res == self.block_id,
    {
        self.block_id
    }
}

impl DomainEvent for BlockMoved {
    /// `block.moved`.
    fn event_name(&self) -> (res: &'static str)
        ensures
            res@ == "block.moved"@,
    {
        "block.moved"
    }

    /// The block.
    fn entity_id(&self) -> (res: Uuid)
        ensures
            res == self.block_id,
    {
        self.block_id
    }
}

impl DomainEvent for PageCreated {
    /// `page.created`.
    fn event_name(&self) -> (res: &'static str)
        ensures
            res@ == "page.created"@,
    {
        "page.created"
    }

    /// The page.
    fn entity_id(&self) -> (res: Uuid)
        ensures
            res == self.page_id,
    {
        self.page_id
    }
}

impl DomainEvent for PageRenamed {
    /// `page.renamed`.
    fn event_name(&self) -> (res: &'static str)
        ensures
            res@ == "page.renamed"@,
    {
        "page.renamed"
    }

    /// The page.
    fn entity_id(&self) -> (res: Uuid)
        ensures
            res == self.page_id,
    {
        self.page_id
    }
}

impl DomainEvent for PageDeleted {
    /// `page.deleted`.
    fn event_name(&self) -> (res: &'static str)
        ensures
            res@ == "page.deleted"@,
    {
        "page.deleted"
    }

    /// The page.
    fn entity_id(&self) -> (res: Uuid)
        ensures
            res == self.page_id,
    {
        self.page_id
    }
}

} // verus!
