//! Configuration model: named backend nodes and named output templates.
//!
//! Loading and storing the on-disk form is left to the surrounding
//! program; the library only models the configuration's content and the
//! lookups against it.

use vstd::prelude::*;

verus! {

/// The template used when the configuration names none.
pub const DEFAULT_TEMPLATE: &'static str = "[{{default container_name \"-\"}}] {{message}}";

/// Connection details of a REST search backend node.
#[derive(Debug, Clone)]
pub struct GraylogNode {
    pub url: String,
    pub user: String,
}

/// Connection details of a document-store backend node; authentication
/// is optional there.
#[derive(Debug, Clone)]
pub struct ElasticNode {
    pub url: String,
    pub user: Option<String>,
}

/// Connection details of a log-tailing RPC backend node: the resource
/// names whose entries are read.
#[derive(Debug, Clone)]
pub struct GoogleNode {
    pub resources: Vec<String>,
}

/// A configured backend node, tagged by backend kind.
#[derive(Debug, Clone)]
pub enum Node {
    Graylog(GraylogNode),
    Elastic(ElasticNode),
    Google(GoogleNode),
}

impl Node {
    /// Whether a query against this node needs a stored credential:
    /// always for the REST backend, only with a configured user for the
    /// document store, never for the RPC backend (it authenticates out
    /// of band).
    pub fn requires_credential(&self) -> (r: bool)
        ensures
            r == match self {
                Node::Graylog(_) => true,
                Node::Elastic(n) => n.user is Some,
                Node::Google(_) => false,
            },
    {
        match self {
            Node::Graylog(_) => true,
            Node::Elastic(n) => n.user.is_some(),
            Node::Google(_) => false,
        }
    }
}

/// Named output templates.
#[derive(Debug, Clone)]
pub struct Templates(pub Vec<(String, String)>);

impl Default for Templates {
    /// One template named `default`, rendering the container name (or a
    /// dash) and the message.
    fn default() -> (r: Self)
        ensures
            r.0@.len() == 1,
            r.0@[0].0@ == "default"@,
            r.0@[0].1@ == DEFAULT_TEMPLATE@,
    {
        let mut entries: Vec<(String, String)> = Vec::new();
        entries.push((String::from_str("default"), String::from_str(DEFAULT_TEMPLATE)));
        Templates(entries)
    }
}

/// The whole configuration: nodes and templates, each addressed by name.
#[derive(Debug, Clone)]
pub struct Config {
    pub nodes: Vec<(String, Node)>,
    pub templates: Templates,
}

/// The first entry of `entries` at or after `i` whose name matches.
pub open spec fn assoc_lookup_from<T>(entries: Seq<(String, T)>, name: Seq<char>, i: int) -> Option<
    T,
>
    decreases entries.len() - i,
{
    if i < 0 || i >= entries.len() {
        None
    } else if entries[i].0@ == name {
        Some(entries[i].1)
    } else {
        assoc_lookup_from(entries, name, i + 1)
    }
}

/// The first entry of `entries` whose name matches.
pub open spec fn assoc_lookup<T>(entries: Seq<(String, T)>, name: Seq<char>) -> Option<T> {
    assoc_lookup_from(entries, name, 0)
}

/// The named node is not configured.
#[derive(Debug, Clone)]
pub struct MissingNodeError(pub String);

/// The named template is not configured.
#[derive(Debug, Clone)]
pub struct MissingTemplateError(pub String);

/// No default configuration path could be determined.
#[derive(Debug, Clone)]
pub struct ConfigPathError;

/// No configuration file was found at the given path.
#[derive(Debug, Clone)]
pub struct NoConfigError(pub String);

/// The configuration names a node type this build does not know.
#[derive(Debug, Clone)]
pub struct NodeTypeError(pub String);

/// Looks the named node up; the error names the missing node.
pub fn node<'a>(config: &'a Config, name: &str) -> (r: Result<&'a Node, MissingNodeError>)
    ensures
        match r {
            Ok(n) => assoc_lookup(config.nodes@, name@) == Some(*n),
            Err(e) => assoc_lookup(config.nodes@, name@) is None && e.0@ == name@,
        },
{
    let mut i: usize = 0;
    while i < config.nodes.len()
        invariant
            i <= config.nodes@.len(),
            assoc_lookup(config.nodes@, name@) == assoc_lookup_from(config.nodes@, name@, i as int),
        decreases config.nodes@.len() - i,
    {
        if crate::text::str_eq(config.nodes[i].0.as_str(), name) {
            return Ok(&config.nodes[i].1);
        }
        i = i + 1;
    }
    Err(MissingNodeError(String::from_str(name)))
}

/// Looks the named template up; the error names the missing template.
pub fn template<'a>(config: &'a Config, name: &str) -> (r: Result<&'a str, MissingTemplateError>)
    ensures
        match r {
            Ok(t) => assoc_lookup(config.templates.0@, name@) matches Some(v) && t@ == v@,
            Err(e) => assoc_lookup(config.templates.0@, name@) is None && e.0@ == name@,
        },
{
    let entries = &config.templates.0;
    let mut i: usize = 0;
    while i < entries.len()
        invariant
            i <= entries@.len(),
            entries@ == config.templates.0@,
            assoc_lookup(config.templates.0@, name@) == assoc_lookup_from(
                config.templates.0@,
                name@,
                i as int,
            ),
        decreases entries@.len() - i,
    {
        if crate::text::str_eq(entries[i].0.as_str(), name) {
            return Ok(entries[i].1.as_str());
        }
        i = i + 1;
    }
    Err(MissingTemplateError(String::from_str(name)))
}

} // verus!
