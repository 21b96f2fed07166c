//! Per-message publish properties and their transport-native form.

use vstd::prelude::*;

verus! {

/// Per-message publish metadata: correlation id (unique per request),
/// content type, content encoding, and an optional free-form extension map.
/// Immutable once constructed; converted once at publish time into the
/// transport-native property form.
#[derive(Clone, Debug)]
pub struct Properties {
    pub correlation_id: String,
    pub content_type: String,
    pub content_encoding: String,
    pub extension: Option<Vec<(String, String)>>,
}

/// Transport-native property form of a message: the three required
/// properties plus the header table attached to them.
#[derive(Clone, Debug)]
pub struct WireProperties {
    pub correlation_id: String,
    pub content_type: String,
    pub content_encoding: String,
    pub headers: Vec<(String, String)>,
}

/// Mathematical model of [`WireProperties`].
pub ghost struct WirePropertiesView {
    pub correlation_id: Seq<char>,
    pub content_type: Seq<char>,
    pub content_encoding: Seq<char>,
    pub headers: Seq<(Seq<char>, Seq<char>)>,
}

impl View for WireProperties {
    type V = WirePropertiesView;

    open spec fn view(&self) -> WirePropertiesView {
        WirePropertiesView {
            correlation_id: self.correlation_id@,
            content_type: self.content_type@,
            content_encoding: self.content_encoding@,
            headers: self.headers.deep_view(),
        }
    }
}

impl Properties {
    /// Create new publish properties.
    ///
    /// * `correlation_id` - request-unique correlation id
    /// * `content_type` - payload content type
    /// * `content_encoding` - payload content encoding
    /// * `extension` - optional free-form extension map
    pub fn new(
        correlation_id: String,
        content_type: String,
        content_encoding: String,
        extension: Option<Vec<(String, String)>>,
    ) -> (r: Properties)
        ensures
            r.correlation_id == correlation_id,
            r.content_type == content_type,
            r.content_encoding == content_encoding,
            r.extension == extension,
    {
        Properties { correlation_id, content_type, content_encoding, extension }
    }

    /// Convert the properties to their transport-native form, with an empty
    /// header table; headers are attached afterwards.
    pub fn convert_to_wire_properties(&self) -> (r: WireProperties)
        ensures
            r@ == (WirePropertiesView {
                correlation_id: self.correlation_id@,
                content_type: self.content_type@,
                content_encoding: self.content_encoding@,
                headers: Seq::empty(),
            }),
    {
        let r = WireProperties {
            correlation_id: self.correlation_id.clone(),
            content_type: self.content_type.clone(),
            content_encoding: self.content_encoding.clone(),
            headers: Vec::new(),
        };
        proof {
            assert(r.headers.deep_view() =~= Seq::<(Seq<char>, Seq<char>)>::empty());
        }
        r
    }
}

impl WireProperties {
    /// Attach a header table to the transport-native properties.
    pub fn with_headers(self, headers: Vec<(String, String)>) -> (r: WireProperties)
        ensures
            r@ == (WirePropertiesView {
                correlation_id: self@.correlation_id,
                content_type: self@.content_type,
                content_encoding: self@.content_encoding,
                headers: headers.deep_view(),
            }),
    {
        WireProperties {
            correlation_id: self.correlation_id,
            content_type: self.content_type,
            content_encoding: self.content_encoding,
            headers,
        }
    }
}

} // verus!
