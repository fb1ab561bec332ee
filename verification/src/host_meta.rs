//! Host metadata: the XML resource descriptor that tells a remote server
//! where to send its WebFinger queries.

use crate::config::Config;
use crate::media::{Content, MediaType};
use vstd::prelude::*;

verus! {

/// The document, up to the opening quote of the link template.
pub const XRD_HEAD: &'static str = "<?xml version=\"1.0\"?>\n\
<XRD xmlns=\"http://docs.oasis-open.org/ns/xri/xrd-1.0\">\n  \
<Link rel=\"lrdd\" type=\"application/xrd+xml\" template=\"";

/// The path and query of the link template. `{uri}` is a placeholder for
/// the remote server to fill in, and is sent as it stands.
pub const LRDD_TEMPLATE_PATH: &'static str = "/.well-known/webfinger?resource={uri}";

/// The document, from the closing quote of the link template on.
pub const XRD_TAIL: &'static str = "\"/>\n</XRD>";

/// The template under which the server at `base_url` takes WebFinger
/// queries.
pub open spec fn lrdd_template(base_url: Seq<char>) -> Seq<char> {
    base_url + LRDD_TEMPLATE_PATH@
}

/// The host metadata document of the server at `base_url`: a fixed text
/// that holds the base URL once, in the template of its only link.
pub open spec fn host_meta_document(base_url: Seq<char>) -> Seq<char> {
    XRD_HEAD@ + lrdd_template(base_url) + XRD_TAIL@
}

/// The host metadata document of this server.
pub fn webfinger_host_meta(config: &Config) -> (content: Content<String>)
    ensures
        content.0 == MediaType::Xrd,
        content.1@ == host_meta_document(config.base_url@),
{
    let mut document = XRD_HEAD.to_owned();
    document.append(config.base_url.as_str());
    document.append(LRDD_TEMPLATE_PATH);
    document.append(XRD_TAIL);
    Content(MediaType::Xrd, document)
}

} // verus!
