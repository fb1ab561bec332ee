//! The media types of the discovery documents, and a document tagged with
//! its media type.

use vstd::prelude::*;

verus! {

/// The closed set of media types that the discovery endpoints answer with.
#[derive(Debug, Clone, Copy, PartialEq, Eq, Structural)]
pub enum MediaType {
    /// `application/jrd+json`: a JSON resource descriptor.
    Jrd,
    /// `application/xrd+xml`: an XML resource descriptor.
    Xrd,
    /// `application/json` with the NodeInfo profile as its parameter.
    NodeInfo,
}

impl MediaType {
    /// The top-level type, which is `application` for all of them.
    pub fn top(self) -> (top: &'static str)
        ensures
            top@ == "application"@,
    {
        "application"
    }

    /// The subtype.
    pub fn sub(self) -> (sub: &'static str)
        ensures
            sub@ == match self {
                MediaType::Jrd => "jrd+json"@,
                MediaType::Xrd => "xrd+xml"@,
                MediaType::NodeInfo => "json"@,
            },
    {
        match self {
            MediaType::Jrd => "jrd+json",
            MediaType::Xrd => "xrd+xml",
            MediaType::NodeInfo => "json",
        }
    }

    /// The parameter that follows the subtype, as name and value. Only the
    /// NodeInfo type has one: its profile, which is the address of the
    /// schema followed by `#,`.
    pub fn parameter(self) -> (parameter: Option<(&'static str, &'static str)>)
        ensures
            match self {
                MediaType::NodeInfo => parameter matches Some((name, value)) && name@
                    == "profile"@ && value@
                    == "http://nodeinfo.diaspora.software/ns/schema/2.0#,"@,
                _ => parameter is None,
            },
    {
        match self {
            MediaType::NodeInfo => Some(
                ("profile", "http://nodeinfo.diaspora.software/ns/schema/2.0#,"),
            ),
            _ => None,
        }
    }
}

/// A response body together with the media type it is sent under.
#[derive(Debug, PartialEq, Eq)]
pub struct Content<T>(pub MediaType, pub T);

impl<T: DeepView> DeepView for Content<T> {
    type V = Content<T::V>;

    open spec fn deep_view(&self) -> Content<T::V> {
        Content(self.0, self.1.deep_view())
    }
}

} // verus!
