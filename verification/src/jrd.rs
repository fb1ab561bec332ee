//! JSON resource descriptors: the documents that WebFinger answers with.

use crate::json::{text_array, Json, JsonView};
use vstd::prelude::*;

verus! {

/// One link of a resource descriptor.
#[derive(Debug, PartialEq, Eq)]
pub struct Link {
    /// The relation between the subject and the target.
    pub rel: String,
    /// The media type of the target, written under the key `type`; a link
    /// without one has no such key.
    pub media_type: Option<String>,
    /// The target.
    pub href: String,
}

/// What a link says.
pub struct LinkView {
    pub rel: Seq<char>,
    pub media_type: Option<Seq<char>>,
    pub href: Seq<char>,
}

impl DeepView for Link {
    type V = LinkView;

    open spec fn deep_view(&self) -> LinkView {
        LinkView {
            rel: self.rel@,
            media_type: self.media_type.deep_view(),
            href: self.href@,
        }
    }
}

/// A link as a JSON object: its target and its relation, and its media type
/// where it has one.
pub open spec fn link_json(link: LinkView) -> JsonView {
    let members = seq![("href"@, JsonView::Text(link.href)), ("rel"@, JsonView::Text(link.rel))];
    match link.media_type {
        Some(media_type) => JsonView::Object(members.push(("type"@, JsonView::Text(media_type)))),
        None => JsonView::Object(members),
    }
}

impl Link {
    /// This link as a JSON object.
    pub fn to_json(&self) -> (json: Json)
        ensures
            json.deep_view() == link_json(self.deep_view()),
    {
        let mut members: Vec<(String, Json)> = Vec::new();
        members.push(("href".to_owned(), Json::text(self.href.as_str())));
        members.push(("rel".to_owned(), Json::text(self.rel.as_str())));
        match &self.media_type {
            Some(media_type) => {
                members.push(("type".to_owned(), Json::text(media_type.as_str())));
            },
            None => {},
        }
        assert(members.deep_view() =~= link_json(self.deep_view())->Object_0);
        Json::object(members)
    }
}

/// A resource descriptor. A member that is `None` is left out of the
/// document.
#[derive(Debug, PartialEq, Eq)]
pub struct JrdDocument {
    /// The resource that the document describes.
    pub subject: Option<String>,
    /// Other identifiers of the subject.
    pub aliases: Option<Vec<String>>,
    /// The links, in the order in which they are written.
    pub links: Vec<Link>,
}

/// What a resource descriptor says.
pub struct JrdView {
    pub subject: Option<Seq<char>>,
    pub aliases: Option<Seq<Seq<char>>>,
    pub links: Seq<LinkView>,
}

impl DeepView for JrdDocument {
    type V = JrdView;

    open spec fn deep_view(&self) -> JrdView {
        JrdView {
            subject: self.subject.deep_view(),
            aliases: self.aliases.deep_view(),
            links: self.links.deep_view(),
        }
    }
}

/// The `links`, each as a JSON object.
pub open spec fn link_items(links: Seq<LinkView>) -> Seq<JsonView> {
    links.map_values(|link: LinkView| link_json(link))
}

/// A resource descriptor as a JSON object: its aliases where it has any,
/// its links, and its subject where it has one.
pub open spec fn jrd_json(document: JrdView) -> JsonView {
    let aliases: Seq<(Seq<char>, JsonView)> = match document.aliases {
        Some(aliases) => seq![("aliases"@, text_array(aliases))],
        None => seq![],
    };
    let links = seq![("links"@, JsonView::Array(link_items(document.links)))];
    let subject: Seq<(Seq<char>, JsonView)> = match document.subject {
        Some(subject) => seq![("subject"@, JsonView::Text(subject))],
        None => seq![],
    };
    JsonView::Object(aliases + links + subject)
}

impl JrdDocument {
    /// This document as a JSON object.
    pub fn to_json(&self) -> (json: Json)
        ensures
            json.deep_view() == jrd_json(self.deep_view()),
    {
        let mut links: Vec<Json> = Vec::new();
        for i in 0..self.links.len()
            invariant
                links.deep_view() == link_items(self.links.deep_view().take(i as int)),
        {
            let ghost before = links.deep_view();
            links.push(self.links[i].to_json());
            assert(links.deep_view() =~= before.push(link_json(self.links[i as int].deep_view())));
        }
        assert(self.links.deep_view().take(self.links.len() as int) =~= self.links.deep_view());
        let mut members: Vec<(String, Json)> = Vec::new();
        match &self.aliases {
            Some(aliases) => {
                members.push(("aliases".to_owned(), Json::texts(aliases)));
            },
            None => {},
        }
        members.push(("links".to_owned(), Json::array(links)));
        match &self.subject {
            Some(subject) => {
                members.push(("subject".to_owned(), Json::text(subject.as_str())));
            },
            None => {},
        }
        assert(members.deep_view() =~= jrd_json(self.deep_view())->Object_0);
        Json::object(members)
    }
}

} // verus!
