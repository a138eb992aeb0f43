use vstd::prelude::*;

verus! {

/// The shape of a YAML document: a text, a list of documents, or a record
/// of named documents in the order in which they are written.
pub enum Node {
    Text(Seq<char>),
    List(Seq<Node>),
    Record(Seq<(Seq<char>, Node)>),
}

#[verifier::external_type_specification]
#[verifier::external_body]
pub struct ExValue(serde_yaml::Value);

#[verifier::external_type_specification]
#[verifier::external_body]
pub struct ExYamlError(serde_yaml::Error);

/// The document that a `serde_yaml::Value` holds.
pub uninterp spec fn value_node(v: serde_yaml::Value) -> Node;

/// What `serde_yaml::to_string` makes of a document: the text it writes,
/// or nothing where it fails.
pub uninterp spec fn yaml_written(n: Node) -> Option<Seq<char>>;

/// The documents that a list of values holds, in order.
pub open spec fn value_nodes(items: Seq<serde_yaml::Value>) -> Seq<Node> {
    items.map_values(|v: serde_yaml::Value| value_node(v))
}

/// The named documents that a list of keyed values holds, in order.
pub open spec fn entry_nodes(entries: Seq<(String, serde_yaml::Value)>) -> Seq<(Seq<char>, Node)> {
    entries.map_values(|e: (String, serde_yaml::Value)| (e.0@, value_node(e.1)))
}

/// No key occurs twice.
pub open spec fn distinct_keys(entries: Seq<(String, serde_yaml::Value)>) -> bool {
    forall|i: int, j: int|
        0 <= i < j < entries.len() ==> (#[trigger] entries[i]).0@ != (#[trigger] entries[j]).0@
}

/// `serde_yaml::Value::String`: the value holds the given text.
#[verifier::external_body]
pub(crate) fn text_value(s: &str) -> (v: serde_yaml::Value)
    ensures
        value_node(v) == Node::Text(s@),
{
    serde_yaml::Value::String(s.to_string())
}

/// `serde_yaml::Value::Sequence`: the value holds the items' documents as a
/// list, in the order given.
#[verifier::external_body]
pub(crate) fn list_value(items: Vec<serde_yaml::Value>) -> (v: serde_yaml::Value)
    ensures
        value_node(v) == Node::List(value_nodes(items@)),
{
    serde_yaml::Value::Sequence(items)
}

/// `serde_yaml::Value::Mapping`, its `Mapping` collected from the entries
/// with each key as a `Value::String`: where no key occurs twice, the value
/// holds the entries as a record, in the order given.
#[verifier::external_body]
pub(crate) fn record_value(entries: Vec<(String, serde_yaml::Value)>) -> (v: serde_yaml::Value)
    requires
        distinct_keys(entries@),
    ensures
        value_node(v) == Node::Record(entry_nodes(entries@)),
{
    serde_yaml::Value::Mapping(
        entries.into_iter().map(|(k, v)| (serde_yaml::Value::String(k), v)).collect(),
    )
}

/// `serde_yaml::to_string` on a value: whether it succeeds, and the text it
/// then returns, depend on the document that the value holds, and on
/// nothing else.
#[verifier::external_body]
pub(crate) fn emit(v: &serde_yaml::Value) -> (r: Result<String, serde_yaml::Error>)
    ensures
        r is Ok <==> yaml_written(value_node(*v)) is Some,
        r is Ok ==> Some(r->Ok_0@) == yaml_written(value_node(*v)),
{
    serde_yaml::to_string(v)
}

/// `serde_yaml::Error`'s `Display`: the error's message. Nothing is claimed
/// of the text.
#[verifier::external_body]
pub(crate) fn error_text(e: &serde_yaml::Error) -> (r: String)
{
    e.to_string()
}

} // verus!
