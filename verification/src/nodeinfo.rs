//! NodeInfo: the document that describes this server's software and usage,
//! and the resource descriptor that leads to it.

use crate::config::Config;
use crate::jrd::{JrdDocument, JrdView, Link, LinkView};
use crate::json::{text_array, Json, JsonView};
use crate::media::{Content, MediaType};
use vstd::prelude::*;

verus! {

/// The name under which this server software identifies itself.
pub const SOFTWARE_NAME: &'static str = "rustodon";

/// The versions of the NodeInfo schema that this server writes.
#[derive(Debug, Clone, Copy, PartialEq, Eq, Structural)]
pub enum SchemaVersion {
    /// Version 2.0, written in the document as the number `2.0`.
    TwoPointZero,
}

/// The software that runs this server.
#[derive(Debug, PartialEq, Eq)]
pub struct Software {
    pub name: String,
    pub version: String,
}

/// The third-party services that this server can bridge to.
#[derive(Debug, PartialEq, Eq)]
pub struct Services {
    pub inbound: Vec<String>,
    pub outbound: Vec<String>,
}

/// Usage counts of the users.
#[derive(Debug, PartialEq, Eq)]
pub struct Users {
    pub total: i64,
}

/// Usage counts of this server.
#[derive(Debug, PartialEq, Eq)]
pub struct Usage {
    pub users: Users,
    /// Written under the key `localPosts`.
    pub local_posts: i64,
}

/// A NodeInfo document.
#[derive(Debug, PartialEq, Eq)]
pub struct NodeInfoDocument {
    pub version: SchemaVersion,
    pub software: Software,
    pub protocols: Vec<String>,
    pub services: Services,
    /// Written under the key `openRegistrations`.
    pub open_registrations: bool,
    pub usage: Usage,
}

/// What a NodeInfo document says.
pub struct NodeInfoView {
    pub version: SchemaVersion,
    pub software_name: Seq<char>,
    pub software_version: Seq<char>,
    pub protocols: Seq<Seq<char>>,
    pub inbound_services: Seq<Seq<char>>,
    pub outbound_services: Seq<Seq<char>>,
    pub open_registrations: bool,
    pub users_total: int,
    pub local_posts: int,
}

impl DeepView for NodeInfoDocument {
    type V = NodeInfoView;

    open spec fn deep_view(&self) -> NodeInfoView {
        NodeInfoView {
            version: self.version,
            software_name: self.software.name@,
            software_version: self.software.version@,
            protocols: self.protocols.deep_view(),
            inbound_services: self.services.inbound.deep_view(),
            outbound_services: self.services.outbound.deep_view(),
            open_registrations: self.open_registrations,
            users_total: self.usage.users.total as int,
            local_posts: self.usage.local_posts as int,
        }
    }
}

/// A schema version as a JSON number.
pub open spec fn version_json(version: SchemaVersion) -> JsonView {
    match version {
        SchemaVersion::TwoPointZero => JsonView::Decimal { mantissa: 20, scale: 1 },
    }
}

/// A NodeInfo document as a JSON object.
pub open spec fn nodeinfo_json(document: NodeInfoView) -> JsonView {
    let software = JsonView::Object(
        seq![
            ("name"@, JsonView::Text(document.software_name)),
            ("version"@, JsonView::Text(document.software_version)),
        ],
    );
    let services = JsonView::Object(
        seq![
            ("inbound"@, text_array(document.inbound_services)),
            ("outbound"@, text_array(document.outbound_services)),
        ],
    );
    let users = JsonView::Object(seq![("total"@, JsonView::Integer(document.users_total))]);
    let usage = JsonView::Object(
        seq![("users"@, users), ("localPosts"@, JsonView::Integer(document.local_posts))],
    );
    JsonView::Object(
        seq![
            ("version"@, version_json(document.version)),
            ("software"@, software),
            ("protocols"@, text_array(document.protocols)),
            ("services"@, services),
            ("openRegistrations"@, JsonView::Bool(document.open_registrations)),
            ("usage"@, usage),
        ],
    )
}

impl SchemaVersion {
    /// This version as a JSON number.
    pub fn to_json(self) -> (json: Json)
        ensures
            json.deep_view() == version_json(self),
    {
        match self {
            SchemaVersion::TwoPointZero => Json::Decimal { mantissa: 20, scale: 1 },
        }
    }
}

impl NodeInfoDocument {
    /// This document as a JSON object.
    pub fn to_json(&self) -> (json: Json)
        ensures
            json.deep_view() == nodeinfo_json(self.deep_view()),
    {
        let mut software: Vec<(String, Json)> = Vec::new();
        software.push(("name".to_owned(), Json::text(self.software.name.as_str())));
        software.push(("version".to_owned(), Json::text(self.software.version.as_str())));
        assert(software.deep_view() =~= seq![
            ("name"@, JsonView::Text(self.software.name@)),
            ("version"@, JsonView::Text(self.software.version@)),
        ]);

        let mut services: Vec<(String, Json)> = Vec::new();
        services.push(("inbound".to_owned(), Json::texts(&self.services.inbound)));
        services.push(("outbound".to_owned(), Json::texts(&self.services.outbound)));
        assert(services.deep_view() =~= seq![
            ("inbound"@, text_array(self.services.inbound.deep_view())),
            ("outbound"@, text_array(self.services.outbound.deep_view())),
        ]);

        let mut users: Vec<(String, Json)> = Vec::new();
        users.push(("total".to_owned(), Json::Integer(self.usage.users.total)));
        assert(users.deep_view() =~= seq![
            ("total"@, JsonView::Integer(self.usage.users.total as int)),
        ]);

        let mut usage: Vec<(String, Json)> = Vec::new();
        usage.push(("users".to_owned(), Json::object(users)));
        usage.push(("localPosts".to_owned(), Json::Integer(self.usage.local_posts)));
        assert(usage.deep_view() =~= seq![
            ("users"@, JsonView::Object(users.deep_view())),
            ("localPosts"@, JsonView::Integer(self.usage.local_posts as int)),
        ]);

        let mut members: Vec<(String, Json)> = Vec::new();
        members.push(("version".to_owned(), self.version.to_json()));
        members.push(("software".to_owned(), Json::object(software)));
        members.push(("protocols".to_owned(), Json::texts(&self.protocols)));
        members.push(("services".to_owned(), Json::object(services)));
        members.push(("openRegistrations".to_owned(), Json::Bool(self.open_registrations)));
        members.push(("usage".to_owned(), Json::object(usage)));
        assert(members.deep_view() =~= nodeinfo_json(self.deep_view())->Object_0);
        Json::object(members)
    }
}

/// The address of the NodeInfo document of the server at `base_url`.
pub open spec fn nodeinfo_href(base_url: Seq<char>) -> Seq<char> {
    base_url + "/nodeinfo/2.0"@
}

/// The resource descriptor that leads to the NodeInfo document of the
/// server at `base_url`: one link, and neither subject nor aliases.
pub open spec fn nodeinfo_discovery(base_url: Seq<char>) -> JrdView {
    JrdView {
        subject: None,
        aliases: None,
        links: seq![
            LinkView {
                rel: "http://nodeinfo.diaspora.software/ns/schema/2.0"@,
                media_type: None,
                href: nodeinfo_href(base_url),
            },
        ],
    }
}

/// The NodeInfo document of a server that runs the build `revision` and
/// counts `users` users and `local_posts` posts of its own. It speaks
/// ActivityPub, bridges to no service, and is open to registrations.
pub open spec fn nodeinfo_document(revision: Seq<char>, users: int, local_posts: int)
    -> NodeInfoView {
    NodeInfoView {
        version: SchemaVersion::TwoPointZero,
        software_name: SOFTWARE_NAME@,
        software_version: revision,
        protocols: seq!["activitypub"@],
        inbound_services: Seq::empty(),
        outbound_services: Seq::empty(),
        open_registrations: true,
        users_total: users,
        local_posts: local_posts,
    }
}

/// The resource descriptor that leads to this server's NodeInfo document.
pub fn webfinger_nodeinfo(config: &Config) -> (content: Content<JrdDocument>)
    ensures
        content.deep_view() == Content(MediaType::Jrd, nodeinfo_discovery(config.base_url@)),
        content.1.links.len() == 1,
        content.1.links[0].href@ == config.base_url@ + "/nodeinfo/2.0"@,
{
    let mut href = config.base_url.clone();
    href.append("/nodeinfo/2.0");
    let link = Link {
        rel: "http://nodeinfo.diaspora.software/ns/schema/2.0".to_owned(),
        media_type: None,
        href,
    };
    let document = JrdDocument { subject: None, aliases: None, links: vec![link] };
    assert(document.deep_view().links =~= nodeinfo_discovery(config.base_url@).links);
    Content(MediaType::Jrd, document)
}

/// This server's NodeInfo document. `user_count` and `local_posts` are what
/// the user store and the status store answered when asked for their counts.
/// Where either of them failed there is no document, and the failure is
/// handed on: that of the user store where both failed.
pub fn nodeinfo<E>(
    config: &Config,
    user_count: Result<i64, E>,
    local_posts: Result<i64, E>,
) -> (reply: Result<Content<NodeInfoDocument>, E>)
    ensures
        match (user_count, local_posts) {
            (Ok(users), Ok(posts)) => reply matches Ok(content) && content.deep_view() == Content(
                MediaType::NodeInfo,
                nodeinfo_document(config.revision@, users as int, posts as int),
            ),
            (Err(failure), _) => reply matches Err(handed_on) && handed_on == failure,
            (Ok(_), Err(failure)) => reply matches Err(handed_on) && handed_on == failure,
        },
        reply is Ok <==> user_count is Ok && local_posts is Ok,
        reply matches Ok(content) ==> {
            &&& user_count matches Ok(users)
            &&& local_posts matches Ok(posts)
            &&& content.1.usage.users.total == users
            &&& content.1.usage.local_posts == posts
        },
{
    let users = match user_count {
        Ok(users) => users,
        Err(failure) => {
            return Err(failure);
        },
    };
    let posts = match local_posts {
        Ok(posts) => posts,
        Err(failure) => {
            return Err(failure);
        },
    };
    let document = NodeInfoDocument {
        version: SchemaVersion::TwoPointZero,
        software: Software { name: SOFTWARE_NAME.to_owned(), version: config.revision.clone() },
        protocols: vec!["activitypub".to_owned()],
        services: Services { inbound: Vec::new(), outbound: Vec::new() },
        open_registrations: true,
        usage: Usage { users: Users { total: users }, local_posts: posts },
    };
    assert(document.deep_view().protocols =~= seq!["activitypub"@]);
    assert(document.deep_view().outbound_services =~= Seq::empty());
    Ok(Content(MediaType::NodeInfo, document))
}

} // verus!
