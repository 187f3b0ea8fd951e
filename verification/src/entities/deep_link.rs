//! Deep links: references from a block or page to another block, another
//! page, or an external URL, with optional link text and context.

use crate::clock::now_millis;
use crate::errors::domain_error::DomainError;
use crate::text::{concat2, str_eq};
use crate::value_objects::{hyphenated, Uuid};
use vstd::prelude::*;

verus! {

/// The kind of target a deep link points to.
#[derive(Debug, Clone, Copy, PartialEq, Eq, Hash, Structural)]
pub enum LinkType {
    /// A block of the graph.
    InternalBlock,
    /// A page of the graph.
    InternalPage,
    /// An external URL.
    ExternalUrl,
}

/// The canonical name of a [`LinkType`].
pub open spec fn link_type_name(k: LinkType) -> Seq<char> {
    match k {
        LinkType::InternalBlock => "block"@,
        LinkType::InternalPage => "page"@,
        LinkType::ExternalUrl => "url"@,
    }
}

/// The [`LinkType`] with canonical name `s`, if any.
pub open spec fn link_type_parse(s: Seq<char>) -> Option<LinkType> {
    if s == "block"@ {
        Some(LinkType::InternalBlock)
    } else if s == "page"@ {
        Some(LinkType::InternalPage)
    } else if s == "url"@ {
        Some(LinkType::ExternalUrl)
    } else {
        None
    }
}

impl LinkType {
    /// The name used in storage: `block`, `page`, `url`.
    pub fn as_str(&self) -> (res: &'static str)
        ensures
            res@ == link_type_name(*self),
    {
        match self {
            LinkType::InternalBlock => "block",
            LinkType::InternalPage => "page",
            LinkType::ExternalUrl => "url",
        }
    }

    /// The value with canonical name `s`; `None` for any other text.
    pub fn try_from_str(s: &str) -> (res: Option<LinkType>)
        ensures
            res == link_type_parse(s@),
    {
        if str_eq(s, "block") {
            Some(LinkType::InternalBlock)
        } else if str_eq(s, "page") {
            Some(LinkType::InternalPage)
        } else if str_eq(s, "url") {
            Some(LinkType::ExternalUrl)
        } else {
            None
        }
    }
}

/// Parsing a [`LinkType`]'s name gives it back, and a name that parses is the
/// name of what it parses to.
pub proof fn lemma_link_type_round_trip(k: LinkType, s: Seq<char>)
    ensures
        link_type_parse(link_type_name(k)) == Some(k),
        link_type_parse(s) matches Some(j) ==> link_type_name(j) == s,
{
    reveal_strlit("block");
    reveal_strlit("page");
    reveal_strlit("url");
    assert("page"@.len() != "block"@.len());
    assert("url"@.len() != "block"@.len());
    assert("url"@.len() != "page"@.len());
}

/// The kind of entity a deep link starts from.
#[derive(Debug, Clone, Copy, PartialEq, Eq, Hash, Structural)]
pub enum LinkSourceType {
    /// A block.
    Block,
    /// A page.
    Page,
}

/// The canonical name of a [`LinkSourceType`].
pub open spec fn link_source_type_name(k: LinkSourceType) -> Seq<char> {
    match k {
        LinkSourceType::Block => "block"@,
        LinkSourceType::Page => "page"@,
    }
}

/// The [`LinkSourceType`] with canonical name `s`, if any.
pub open spec fn link_source_type_parse(s: Seq<char>) -> Option<LinkSourceType> {
    if s == "block"@ {
        Some(LinkSourceType::Block)
    } else if s == "page"@ {
        Some(LinkSourceType::Page)
    } else {
        None
    }
}

impl LinkSourceType {
    /// The name used in storage: `block`, `page`.
    pub fn as_str(&self) -> (res: &'static str)
        ensures
            res@ == link_source_type_name(*self),
    {
        match self {
            LinkSourceType::Block => "block",
            LinkSourceType::Page => "page",
        }
    }

    /// The value with canonical name `s`; `None` for any other text.
    pub fn try_from_str(s: &str) -> (res: Option<LinkSourceType>)
        ensures
            res == link_source_type_parse(s@),
    {
        if str_eq(s, "block") {
            Some(LinkSourceType::Block)
        } else if str_eq(s, "page") {
            Some(LinkSourceType::Page)
        } else {
            None
        }
    }
}

/// Parsing a [`LinkSourceType`]'s name gives it back, and a name that parses is the
/// name of what it parses to.
pub proof fn lemma_link_source_type_round_trip(k: LinkSourceType, s: Seq<char>)
    ensures
        link_source_type_parse(link_source_type_name(k)) == Some(k),
        link_source_type_parse(s) matches Some(j) ==> link_source_type_name(j) == s,
{
    reveal_strlit("block");
    reveal_strlit("page");
    assert("page"@.len() != "block"@.len());
}


/// A link from a source block or page to a target. Times are milliseconds
/// since the Unix epoch.
#[derive(Debug, Clone, PartialEq)]
pub struct DeepLink {
    /// Unique identifier.
    pub id: Uuid,
    /// The block or page that holds the link.
    pub source_id: Uuid,
    /// Whether the source is a block or a page.
    pub source_type: LinkSourceType,
    /// Target block id (internal block links).
    pub target_id: Option<Uuid>,
    /// Target page name (internal page links).
    pub target_page_name: Option<String>,
    /// The kind of target.
    pub link_type: LinkType,
    /// Target URL (external links).
    pub external_url: Option<String>,
    /// Display text of the link.
    pub link_text: Option<String>,
    /// Text around the link.
    pub context: Option<String>,
    /// Creation time.
    pub created_at: i64,
}

/// What is needed to create a deep link.
#[derive(Debug, Clone)]
pub struct DeepLinkCreate {
    /// The block or page that holds the link.
    pub source_id: Uuid,
    /// Whether the source is a block or a page.
    pub source_type: LinkSourceType,
    /// Target block id.
    pub target_id: Option<Uuid>,
    /// Target page name.
    pub target_page_name: Option<String>,
    /// The kind of target.
    pub link_type: LinkType,
    /// Target URL.
    pub external_url: Option<String>,
    /// Display text of the link.
    pub link_text: Option<String>,
    /// Text around the link.
    pub context: Option<String>,
}

/// The message of the error for an external link without a URL.
pub open spec fn missing_url_message() -> Seq<char> {
    "External URL is required for external links"@
}

/// The message of the error for a block link without a target id.
pub open spec fn missing_target_message() -> Seq<char> {
    "Target ID is required for internal block links"@
}

/// The message of the error for a page link without a page name.
pub open spec fn missing_page_message() -> Seq<char> {
    "Target page name is required for internal page links"@
}

/// The error that creating a link from `c` meets, if any: each kind of
/// link needs its own target (a URL, a block id, a page name).
pub open spec fn deep_link_create_error(c: DeepLinkCreate) -> Option<Seq<char>> {
    if c.link_type == LinkType::ExternalUrl && c.external_url is None {
        Some(missing_url_message())
    } else if c.link_type == LinkType::InternalBlock && c.target_id is None {
        Some(missing_target_message())
    } else if c.link_type == LinkType::InternalPage && c.target_page_name is None {
        Some(missing_page_message())
    } else {
        None
    }
}

/// The link that `c` describes, with the given id and creation time.
pub open spec fn created_deep_link(c: DeepLinkCreate, id: Uuid, now: i64) -> DeepLink {
    DeepLink {
        id,
        source_id: c.source_id,
        source_type: c.source_type,
        target_id: c.target_id,
        target_page_name: c.target_page_name,
        link_type: c.link_type,
        external_url: c.external_url,
        link_text: c.link_text,
        context: c.context,
        created_at: now,
    }
}

/// The target as text: the URL if there is one, else `page:` and the page
/// name, else `block:` and the hyphenated block id, else `unknown`.
pub open spec fn target_identifier_text(l: DeepLink) -> Seq<char> {
    match l.external_url {
        Some(u) => u@,
        None => match l.target_page_name {
            Some(p) => "page:"@ + p@,
            None => match l.target_id {
                Some(id) => "block:"@ + hyphenated(id.value),
                None => "unknown"@,
            },
        },
    }
}

impl DeepLink {
    fn create_error(create: &DeepLinkCreate) -> (res: Option<String>)
        ensures
            match deep_link_create_error(*create) {
                Some(m) => res matches Some(r) && r@ == m,
                None => res is None,
            },
    {
        if create.link_type == LinkType::ExternalUrl && create.external_url.is_none() {
            Some("External URL is required for external links".to_owned())
        } else if create.link_type == LinkType::InternalBlock && create.target_id.is_none() {
            Some("Target ID is required for internal block links".to_owned())
        } else if create.link_type == LinkType::InternalPage && create.target_page_name.is_none() {
            Some("Target page name is required for internal page links".to_owned())
        } else {
            None
        }
    }

    /// Creates a deep link with the given id and creation time. Fails with
    /// `InvalidData` when the link lacks the target its kind needs.
    pub fn new_at(create: DeepLinkCreate, id: Uuid, now: i64) -> (res: Result<
        DeepLink,
        DomainError,
    >)
        ensures
            match deep_link_create_error(create) {
                Some(m) => res matches Err(DomainError::InvalidData(r)) && r@ == m,
                None => res == Ok::<DeepLink, DomainError>(created_deep_link(create, id, now)),
            },
    {
        match Self::create_error(&create) {
            Some(m) => Err(DomainError::InvalidData(m)),
            None => Ok(DeepLink {
                id,
                source_id: create.source_id,
                source_type: create.source_type,
                target_id: create.target_id,
                target_page_name: create.target_page_name,
                link_type: create.link_type,
                external_url: create.external_url,
                link_text: create.link_text,
                context: create.context,
                created_at: now,
            }),
        }
    }

    /// Creates a deep link with a fresh random id, created now. Fails as
    /// `new_at` does.
    pub fn new(create: DeepLinkCreate) -> (res: Result<DeepLink, DomainError>)
        ensures
            match deep_link_create_error(create) {
                Some(m) => res matches Err(DomainError::InvalidData(r)) && r@ == m,
                None => res matches Ok(l) && l == created_deep_link(create, l.id, l.created_at)
                    && l.id.value != 0,
            },
    {
        match Self::create_error(&create) {
            Some(m) => Err(DomainError::InvalidData(m)),
            None => {
                let id = Uuid::new_v4();
                let now = now_millis();
                Self::new_at(create, id, now)
            },
        }
    }

    /// The target as text, for display (see `target_identifier_text`).
    pub fn target_identifier(&self) -> (res: String)
        ensures
            res@ == target_identifier_text(*self),
    {
        if let Some(url) = &self.external_url {
            url.clone()
        } else if let Some(page_name) = &self.target_page_name {
            concat2("page:", page_name.as_str())
        } else if let Some(id) = &self.target_id {
            let s = id.to_string();
            concat2("block:", s.as_str())
        } else {
            "unknown".to_owned()
        }
    }

    /// Whether the link points inside the graph (a block or a page).
    pub fn is_internal(&self) -> (res: bool)
        ensures
            res == (self.link_type != LinkType::ExternalUrl),
    {
        self.link_type != LinkType::ExternalUrl
    }

    /// Whether the link points to an external URL.
    pub fn is_external(&self) -> (res: bool)
        ensures
            res == (self.link_type == LinkType::ExternalUrl),
    {
        self.link_type == LinkType::ExternalUrl
    }
}

/// A link that was created has the target its kind needs.
pub proof fn lemma_created_link_has_target(c: DeepLinkCreate, id: Uuid, now: i64)
    requires
        deep_link_create_error(c) is None,
    ensures
        ({
            let l = created_deep_link(c, id, now);
            &&& l.link_type == LinkType::ExternalUrl ==> l.external_url is Some
            &&& l.link_type == LinkType::InternalBlock ==> l.target_id is Some
            &&& l.link_type == LinkType::InternalPage ==> l.target_page_name is Some
        }),
{
}

} // verus!
