//! Projection contracts: which blocks a projection applies to, and with what
//! priority.

use crate::entities::block::{props_view, Block};
use crate::projection::predicate::{pred_holds, PropertyPredicate};
use crate::text::chars_of;
use vstd::prelude::*;

verus! {

/// A character of a contract id: a lower-case ASCII letter, a digit or `-`.
pub open spec fn contract_id_char(c: char) -> bool {
    ('a' <= c && c <= 'z') || ('0' <= c && c <= '9') || c == '-'
}

/// The identifier of a projection contract: non-empty, of lower-case ASCII
/// letters, digits and dashes.
#[derive(Debug, Clone, PartialEq, Eq, Hash, PartialOrd, Ord)]
pub struct ProjectionContractId(String);

/// Why a contract id is invalid.
#[derive(Debug, Clone, PartialEq, Eq)]
pub enum ContractIdError {
    /// The id is empty.
    Empty,
    /// The id has a character outside `[a-z0-9-]`.
    InvalidCharacters(String),
}

/// The message of a contract id error.
pub open spec fn contract_id_error_message(e: ContractIdError) -> Seq<char> {
    match e {
        ContractIdError::Empty => "contract ID cannot be empty"@,
        ContractIdError::InvalidCharacters(s) => "contract ID '"@ + s@
            + "' contains invalid characters; use only lowercase letters, digits, and dashes"@,
    }
}

impl ContractIdError {
    /// The error's message.
    pub fn to_display_string(&self) -> (res: String)
        ensures
            res@ == contract_id_error_message(*self),
    {
        match self {
            ContractIdError::Empty => "contract ID cannot be empty".to_owned(),
            ContractIdError::InvalidCharacters(s) => {
                let mut r = "contract ID '".to_owned();
                r.append(s.as_str());
                r.append(
                    "' contains invalid characters; use only lowercase letters, digits, and dashes",
                );
                r
            },
        }
    }
}

impl ProjectionContractId {
    /// The id's text.
    pub closed spec fn view(&self) -> Seq<char> {
        self.0@
    }

    /// The id `id`; `Empty` for an empty text, `InvalidCharacters` for one
    /// with a character outside `[a-z0-9-]`.
    pub fn new(id: &str) -> (res: Result<ProjectionContractId, ContractIdError>)
        ensures
            id@.len() == 0 ==> res == Err::<ProjectionContractId, ContractIdError>(
                ContractIdError::Empty,
            ),
            id@.len() > 0 && (forall|i: int| 0 <= i < id@.len() ==> contract_id_char(#[trigger] id@[i]))
                ==> (res matches Ok(c) && c@ == id@),
            id@.len() > 0 && !(forall|i: int| 0 <= i < id@.len() ==> contract_id_char(#[trigger] id@[i]))
                ==> (res matches Err(ContractIdError::InvalidCharacters(s)) && s@ == id@),
    {
        let cs = chars_of(id);
        if cs.len() == 0 {
            return Err(ContractIdError::Empty);
        }
        let mut i: usize = 0;
        while i < cs.len()
            invariant
                cs@ == id@,
                i <= cs@.len(),
                forall|j: int| 0 <= j < i ==> contract_id_char(#[trigger] cs@[j]),
            decreases cs.len() - i,
        {
            let c = cs[i];
            if !(('a' <= c && c <= 'z') || ('0' <= c && c <= '9') || c == '-') {
                assert(!contract_id_char(id@[i as int]));
                return Err(ContractIdError::InvalidCharacters(id.to_owned()));
            }
            i = i + 1;
        }
        Ok(ProjectionContractId(id.to_owned()))
    }

    /// The id `id`, known to be valid.
    pub fn from_valid(id: &str) -> (res: ProjectionContractId)
        requires
            id@.len() > 0,
            forall|i: int| 0 <= i < id@.len() ==> contract_id_char(#[trigger] id@[i]),
        ensures
            res@ == id@,
    {
        ProjectionContractId(id.to_owned())
    }

    /// The id's text.
    pub fn as_str(&self) -> (res: &str)
        ensures
            res@ == self@,
    {
        self.0.as_str()
    }

    /// The id's text, as `Display` shows it.
    pub fn to_display_string(&self) -> (res: String)
        ensures
            res@ == self@,
    {
        self.0.clone()
    }

    /// A copy of this id.
    pub fn duplicate(&self) -> (res: ProjectionContractId)
        ensures
            res@ == self@,
    {
        ProjectionContractId(self.0.clone())
    }
}

/// The default priority of a contract.
pub const DEFAULT_PRIORITY: u32 = 1000;

/// A projection contract: an id, a priority (lower wins), and predicates
/// that must all hold of a block for the contract to apply.
#[derive(Debug, Clone, PartialEq)]
pub struct ProjectionContract {
    /// The contract's id.
    pub id: ProjectionContractId,
    /// Its priority; lower is preferred.
    pub priority: u32,
    /// Conditions that must all hold.
    pub predicates: Vec<PropertyPredicate>,
}

/// Whether every predicate holds of `props`.
pub open spec fn all_hold(ps: Seq<PropertyPredicate>, props: Map<Seq<char>, crate::value_objects::PValue>) -> bool {
    forall|i: int| 0 <= i < ps.len() ==> pred_holds(#[trigger] ps[i], props)
}

impl ProjectionContract {
    /// A contract with default priority and no predicates.
    pub fn new(id: ProjectionContractId) -> (res: ProjectionContract)
        ensures
            res.id == id,
            res.priority == DEFAULT_PRIORITY,
            res.predicates@.len() == 0,
    {
        ProjectionContract { id, priority: DEFAULT_PRIORITY, predicates: Vec::new() }
    }

    /// Whether every predicate holds of the block.
    pub fn matches_block(&self, block: &Block) -> (res: bool)
        requires
            block.properties.wf(),
        ensures
            res == all_hold(self.predicates@, props_view(block.properties)),
    {
        let mut i: usize = 0;
        while i < self.predicates.len()
            invariant
                block.properties.wf(),
                i <= self.predicates@.len(),
                forall|j: int| 0 <= j < i ==> pred_holds(#[trigger] self.predicates@[j], props_view(block.properties)),
            decreases self.predicates.len() - i,
        {
            if !self.predicates[i].matches(block) {
                return false;
            }
            i = i + 1;
        }
        true
    }

    /// Whether every predicate holds of the block and the guard, evaluated
    /// by the caller, accepted it (`None` for a contract without a guard).
    pub fn matches_block_with_guard(&self, block: &Block, guard: Option<bool>) -> (res: bool)
        requires
            block.properties.wf(),
        ensures
            res == (all_hold(self.predicates@, props_view(block.properties)) && guard != Some(false)),
    {
        if !self.matches_block(block) {
            return false;
        }
        match guard {
            Some(false) => false,
            _ => true,
        }
    }

    /// The same contract with another priority.
    pub fn with_priority(self, priority: u32) -> (res: ProjectionContract)
        ensures
            res == (ProjectionContract { priority, ..self }),
    {
        ProjectionContract { priority, ..self }
    }

    /// The same contract with one more predicate, at the end.
    pub fn with_predicate(self, predicate: PropertyPredicate) -> (res: ProjectionContract)
        ensures
            res.id == self.id,
            res.priority == self.priority,
            res.predicates@ == self.predicates@.push(predicate),
    {
        let mut s = self;
        s.predicates.push(predicate);
        s
    }

    /// The same contract with other predicates.
    pub fn with_predicates(self, predicates: Vec<PropertyPredicate>) -> (res: ProjectionContract)
        ensures
            res == (ProjectionContract { predicates, ..self }),
    {
        ProjectionContract { predicates, ..self }
    }
}

} // verus!
