//! Reading the measurement payload: a JSON document, decoded by
//! `serde_json`, of which this crate looks at eight places.
use vstd::prelude::*;

verus! {

/// A decoded JSON document. Its inside is known here only through
/// `json_nodes`.
#[verifier::external_type_specification]
#[verifier::external_body]
pub struct ExJsonValue(serde_json::Value);

/// What stands at one place of a document. Of a number its numeral is
/// kept; of the other kinds only the kind.
#[derive(Clone, Debug, PartialEq, Eq)]
pub enum JsonNode {
    Absent,
    Null,
    Bool,
    Number(String),
    Text,
    Array,
    Object,
}

/// The mathematical value of a `JsonNode`.
pub enum JsonNodeView {
    Absent,
    Null,
    Bool,
    Number(Seq<char>),
    Text,
    Array,
    Object,
}

impl View for JsonNode {
    type V = JsonNodeView;

    open spec fn view(&self) -> JsonNodeView {
        match self {
            JsonNode::Absent => JsonNodeView::Absent,
            JsonNode::Null => JsonNodeView::Null,
            JsonNode::Bool => JsonNodeView::Bool,
            JsonNode::Number(numeral) => JsonNodeView::Number(numeral@),
            JsonNode::Text => JsonNodeView::Text,
            JsonNode::Array => JsonNodeView::Array,
            JsonNode::Object => JsonNodeView::Object,
        }
    }
}

/// The places of a document: each JSON pointer that leads to a value in
/// it, with what stands there. The pointers that lead nowhere are not in
/// the map.
pub uninterp spec fn json_nodes(doc: serde_json::Value) -> Map<Seq<char>, JsonNodeView>;

/// What `serde_json` makes of a text: the places of the document it
/// decodes to, or the message of the error it reports.
pub uninterp spec fn json_decoding(text: Seq<char>) -> Result<
    Map<Seq<char>, JsonNodeView>,
    Seq<char>,
>;

/// What stands in a document at `pointer`.
pub open spec fn node_in(nodes: Map<Seq<char>, JsonNodeView>, pointer: Seq<char>) -> JsonNodeView {
    if nodes.dom().contains(pointer) {
        nodes[pointer]
    } else {
        JsonNodeView::Absent
    }
}

/// The eight places of a payload that this crate reads.
#[derive(Clone, Debug, PartialEq, Eq)]
pub struct PayloadNodes {
    pub root: JsonNode,
    pub download: JsonNode,
    pub download_bandwidth: JsonNode,
    pub upload: JsonNode,
    pub upload_bandwidth: JsonNode,
    pub ping: JsonNode,
    pub ping_latency: JsonNode,
    pub ping_jitter: JsonNode,
}

/// The mathematical value of a `PayloadNodes`.
pub struct PayloadNodesView {
    pub root: JsonNodeView,
    pub download: JsonNodeView,
    pub download_bandwidth: JsonNodeView,
    pub upload: JsonNodeView,
    pub upload_bandwidth: JsonNodeView,
    pub ping: JsonNodeView,
    pub ping_latency: JsonNodeView,
    pub ping_jitter: JsonNodeView,
}

impl View for PayloadNodes {
    type V = PayloadNodesView;

    open spec fn view(&self) -> PayloadNodesView {
        PayloadNodesView {
            root: self.root@,
            download: self.download@,
            download_bandwidth: self.download_bandwidth@,
            upload: self.upload@,
            upload_bandwidth: self.upload_bandwidth@,
            ping: self.ping@,
            ping_latency: self.ping_latency@,
            ping_jitter: self.ping_jitter@,
        }
    }
}

/// The eight places as they stand in a document.
pub open spec fn payload_nodes(nodes: Map<Seq<char>, JsonNodeView>) -> PayloadNodesView {
    PayloadNodesView {
        root: node_in(nodes, ""@),
        download: node_in(nodes, "/download"@),
        download_bandwidth: node_in(nodes, "/download/bandwidth"@),
        upload: node_in(nodes, "/upload"@),
        upload_bandwidth: node_in(nodes, "/upload/bandwidth"@),
        ping: node_in(nodes, "/ping"@),
        ping_latency: node_in(nodes, "/ping/latency"@),
        ping_jitter: node_in(nodes, "/ping/jitter"@),
    }
}

/// `serde_json::from_str` into a `serde_json::Value`: the text decodes to
/// the document returned, or the decoder's error message is returned.
/// Which of the two, and the document or message, depends on the text
/// alone.
#[verifier::external_body]
pub(crate) fn decode_document(text: &str) -> (r: Result<serde_json::Value, String>)
    ensures
        match r {
            Ok(doc) => json_decoding(text@) == Ok::<Map<Seq<char>, JsonNodeView>, Seq<char>>(
                json_nodes(doc),
            ),
            Err(detail) => json_decoding(text@) == Err::<Map<Seq<char>, JsonNodeView>, Seq<char>>(
                detail@,
            ),
        },
{
    serde_json::from_str::<serde_json::Value>(text).map_err(|e| e.to_string())
}

/// `serde_json::Value::pointer`: what stands in the document at a JSON
/// pointer, told apart by kind; a number is handed out as the numeral
/// that `serde_json` prints for it.
#[verifier::external_body]
pub(crate) fn node_at(doc: &serde_json::Value, pointer: &str) -> (r: JsonNode)
    ensures
        r@ == node_in(json_nodes(*doc), pointer@),
{
    match doc.pointer(pointer) {
        None => JsonNode::Absent,
        Some(serde_json::Value::Null) => JsonNode::Null,
        Some(serde_json::Value::Bool(_)) => JsonNode::Bool,
        Some(serde_json::Value::Number(n)) => JsonNode::Number(n.to_string()),
        Some(serde_json::Value::String(_)) => JsonNode::Text,
        Some(serde_json::Value::Array(_)) => JsonNode::Array,
        Some(serde_json::Value::Object(_)) => JsonNode::Object,
    }
}

/// Looks up the eight places in a decoded document.
pub(crate) fn read_nodes(doc: &serde_json::Value) -> (r: PayloadNodes)
    ensures
        r@ == payload_nodes(json_nodes(*doc)),
{
    PayloadNodes {
        root: node_at(doc, ""),
        download: node_at(doc, "/download"),
        download_bandwidth: node_at(doc, "/download/bandwidth"),
        upload: node_at(doc, "/upload"),
        upload_bandwidth: node_at(doc, "/upload/bandwidth"),
        ping: node_at(doc, "/ping"),
        ping_latency: node_at(doc, "/ping/latency"),
        ping_jitter: node_at(doc, "/ping/jitter"),
    }
}

} // verus!
