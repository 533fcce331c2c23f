//! The template parser: reads the `type` discriminator of a document, then
//! walks the document tree against the schema of the named template shape.
//! The whole schema — which fields are required, which are optional, how a
//! scalar is classified — is stated as spec functions over the document
//! shape, and the walker is verified against them.

use vstd::prelude::*;
use crate::model::{
    ScalarValue, ScalarView, Parameter, ParameterView, Completion, CompletionView, Chat, ChatView,
    CompletionExampleColumn, ColumnView, ChatExample, ChatExampleView, Message, MessageView,
    Prompt, PromptView, PromptKind, PromptError, str_eq,
};
use crate::yaml::{
    YamlNode, yaml_doc, yaml_shape, parse_document, get_field, value_as_str, value_as_i64,
    value_as_bool, value_is_null, value_number_text, value_as_sequence,
};

verus! {

/// How a document node is classified as a parameter scalar: an integer, a
/// boolean or a string keeps its kind; any other number is carried as its
/// decimal text; everything else is an opaque `Other`.
pub open spec fn scalar_of(n: YamlNode) -> ScalarView {
    match n {
        YamlNode::Int(i) => ScalarView::Int(i),
        YamlNode::Bool(b) => ScalarView::Bool(b),
        YamlNode::Str(t) => ScalarView::Text(t),
        YamlNode::Num(t) => ScalarView::Decimal(t),
        _ => ScalarView::Other,
    }
}

/// A required string field: its text when present as a string, nothing when
/// absent or of another kind.
pub open spec fn spec_req_str(m: Map<Seq<char>, YamlNode>, key: Seq<char>) -> Option<Seq<char>> {
    if m.contains_key(key) {
        match m[key] {
            YamlNode::Str(t) => Some(t),
            _ => None,
        }
    } else {
        None
    }
}

/// An optional string field: `Some(None)` when absent or null, the text when
/// present as a string, and `None` (a schema error) for any other kind.
pub open spec fn spec_opt_str(m: Map<Seq<char>, YamlNode>, key: Seq<char>) -> Option<
    Option<Seq<char>>,
> {
    if m.contains_key(key) {
        match m[key] {
            YamlNode::Null => Some(None),
            YamlNode::Str(t) => Some(Some(t)),
            _ => None,
        }
    } else {
        Some(None)
    }
}

/// One parameter entry: a mapping with a string `name` and any `value`.
pub open spec fn spec_parameter(n: YamlNode) -> Option<ParameterView> {
    match n {
        YamlNode::Mapping(m) => match spec_req_str(m, "name"@) {
            Some(nm) => if m.contains_key("value"@) {
                Some(ParameterView { name: nm, value: scalar_of(m["value"@]) })
            } else {
                None
            },
            None => None,
        },
        _ => None,
    }
}

/// A parameter list node: a sequence whose entries are all valid parameters,
/// kept in input order.
pub open spec fn spec_parameter_list(n: YamlNode) -> Option<Seq<ParameterView>> {
    match n {
        YamlNode::List(items) => if forall|k: int|
            0 <= k < items.len() ==> (#[trigger] spec_parameter(items[k])) is Some {
            Some(Seq::new(items.len(), |k: int| spec_parameter(items[k])->Some_0))
        } else {
            None
        },
        _ => None,
    }
}

/// The optional `parameters` field of a template: absent or null is an
/// absent list, a valid parameter list is kept, anything else is a schema
/// error.
pub open spec fn spec_parameters_field(m: Map<Seq<char>, YamlNode>) -> Option<
    Option<Seq<ParameterView>>,
> {
    if m.contains_key("parameters"@) {
        match m["parameters"@] {
            YamlNode::Null => Some(None),
            other => match spec_parameter_list(other) {
                Some(ps) => Some(Some(ps)),
                None => None,
            },
        }
    } else {
        Some(None)
    }
}

/// A list of strings, kept in input order.
pub open spec fn spec_string_list(n: YamlNode) -> Option<Seq<Seq<char>>> {
    match n {
        YamlNode::List(items) => if forall|k: int|
            0 <= k < items.len() ==> (#[trigger] items[k]) is Str {
            Some(Seq::new(items.len(), |k: int| items[k]->Str_0))
        } else {
            None
        },
        _ => None,
    }
}

/// One example column: a mapping with a string `name`, a required list of
/// string `values`, and an optional string `test`.
pub open spec fn spec_column(n: YamlNode) -> Option<ColumnView> {
    match n {
        YamlNode::Mapping(m) => match spec_req_str(m, "name"@) {
            Some(nm) => if m.contains_key("values"@) {
                match spec_string_list(m["values"@]) {
                    Some(vs) => match spec_opt_str(m, "test"@) {
                        Some(t) => Some(ColumnView { name: nm, values: vs, test: t }),
                        None => None,
                    },
                    None => None,
                }
            } else {
                None
            },
            None => None,
        },
        _ => None,
    }
}

/// A column list node, kept in input order.
pub open spec fn spec_column_list(n: YamlNode) -> Option<Seq<ColumnView>> {
    match n {
        YamlNode::List(items) => if forall|k: int|
            0 <= k < items.len() ==> (#[trigger] spec_column(items[k])) is Some {
            Some(Seq::new(items.len(), |k: int| spec_column(items[k])->Some_0))
        } else {
            None
        },
        _ => None,
    }
}

/// The optional `examples` field of a completion template.
pub open spec fn spec_columns_field(m: Map<Seq<char>, YamlNode>) -> Option<
    Option<Seq<ColumnView>>,
> {
    if m.contains_key("examples"@) {
        match m["examples"@] {
            YamlNode::Null => Some(None),
            other => match spec_column_list(other) {
                Some(cs) => Some(Some(cs)),
                None => None,
            },
        }
    } else {
        Some(None)
    }
}

/// One chat example exchange: a mapping with a string `input` and an
/// optional string `output`.
pub open spec fn spec_chat_example(n: YamlNode) -> Option<ChatExampleView> {
    match n {
        YamlNode::Mapping(m) => match spec_req_str(m, "input"@) {
            Some(inp) => match spec_opt_str(m, "output"@) {
                Some(out) => Some(ChatExampleView { input: inp, output: out }),
                None => None,
            },
            None => None,
        },
        _ => None,
    }
}

/// A chat example list node, kept in input order.
pub open spec fn spec_chat_example_list(n: YamlNode) -> Option<Seq<ChatExampleView>> {
    match n {
        YamlNode::List(items) => if forall|k: int|
            0 <= k < items.len() ==> (#[trigger] spec_chat_example(items[k])) is Some {
            Some(Seq::new(items.len(), |k: int| spec_chat_example(items[k])->Some_0))
        } else {
            None
        },
        _ => None,
    }
}

/// The optional `examples` field of a chat template.
pub open spec fn spec_chat_examples_field(m: Map<Seq<char>, YamlNode>) -> Option<
    Option<Seq<ChatExampleView>>,
> {
    if m.contains_key("examples"@) {
        match m["examples"@] {
            YamlNode::Null => Some(None),
            other => match spec_chat_example_list(other) {
                Some(es) => Some(Some(es)),
                None => None,
            },
        }
    } else {
        Some(None)
    }
}

/// One chat message: a mapping with a string `input` and an optional string
/// `output`.
pub open spec fn spec_message(n: YamlNode) -> Option<MessageView> {
    match n {
        YamlNode::Mapping(m) => match spec_req_str(m, "input"@) {
            Some(inp) => match spec_opt_str(m, "output"@) {
                Some(out) => Some(MessageView { input: inp, output: out }),
                None => None,
            },
            None => None,
        },
        _ => None,
    }
}

/// A message list node, kept in input order.
pub open spec fn spec_message_list(n: YamlNode) -> Option<Seq<MessageView>> {
    match n {
        YamlNode::List(items) => if forall|k: int|
            0 <= k < items.len() ==> (#[trigger] spec_message(items[k])) is Some {
            Some(Seq::new(items.len(), |k: int| spec_message(items[k])->Some_0))
        } else {
            None
        },
        _ => None,
    }
}

/// The optional `messages` field of a chat template.
pub open spec fn spec_messages_field(m: Map<Seq<char>, YamlNode>) -> Option<
    Option<Seq<MessageView>>,
> {
    if m.contains_key("messages"@) {
        match m["messages"@] {
            YamlNode::Null => Some(None),
            other => match spec_message_list(other) {
                Some(ms) => Some(Some(ms)),
                None => None,
            },
        }
    } else {
        Some(None)
    }
}

/// The discriminator of a document: its string `type` field, nothing when
/// the document is not a mapping or the field is absent or not a string.
pub open spec fn spec_doc_type(doc: YamlNode) -> Option<Seq<char>> {
    match doc {
        YamlNode::Mapping(m) => spec_req_str(m, "type"@),
        _ => None,
    }
}

/// What a document yields against the completion schema: `type`, `vendor`,
/// `model` and `prompt` are required strings; `parameters` and `examples`
/// are optional.
pub open spec fn spec_completion(doc: YamlNode) -> Option<CompletionView> {
    match doc {
        YamlNode::Mapping(m) => match (
            spec_req_str(m, "type"@),
            spec_req_str(m, "vendor"@),
            spec_req_str(m, "model"@),
            spec_req_str(m, "prompt"@),
            spec_parameters_field(m),
            spec_columns_field(m),
        ) {
            (Some(ty), Some(vn), Some(md), Some(pr), Some(ps), Some(cs)) => Some(
                CompletionView {
                    prompt_type: ty,
                    vendor: vn,
                    model: md,
                    prompt: pr,
                    parameters: ps,
                    examples: cs,
                },
            ),
            _ => None,
        },
        _ => None,
    }
}

/// What a document yields against the chat schema: `type`, `vendor` and
/// `model` are required strings; `parameters`, `examples`, `context` and
/// `messages` are optional.
pub open spec fn spec_chat(doc: YamlNode) -> Option<ChatView> {
    match doc {
        YamlNode::Mapping(m) => match (
            spec_req_str(m, "type"@),
            spec_req_str(m, "vendor"@),
            spec_req_str(m, "model"@),
            spec_parameters_field(m),
            spec_chat_examples_field(m),
            spec_opt_str(m, "context"@),
            spec_messages_field(m),
        ) {
            (Some(ty), Some(vn), Some(md), Some(ps), Some(es), Some(cx), Some(ms)) => Some(
                ChatView {
                    prompt_type: ty,
                    vendor: vn,
                    model: md,
                    parameters: ps,
                    examples: es,
                    context: cx,
                    messages: ms,
                },
            ),
            _ => None,
        },
        _ => None,
    }
}

/// What parsing a document text yields. A text that is no valid document, or
/// has no string `type`, is malformed. A `completion` or `chat` discriminator
/// selects its schema, and a failure against it names that shape. Any other
/// discriminator yields `Unknown` — by design not an error.
pub open spec fn spec_parse(s: Seq<char>) -> Result<PromptView, PromptError> {
    match yaml_doc(s) {
        None => Err(PromptError::MalformedDocument),
        Some(doc) => match spec_doc_type(doc) {
            None => Err(PromptError::MalformedDocument),
            Some(t) => if t == "completion"@ {
                match spec_completion(doc) {
                    Some(c) => Ok(PromptView::Completion(c)),
                    None => Err(PromptError::SchemaMismatch(PromptKind::Completion)),
                }
            } else if t == "chat"@ {
                match spec_chat(doc) {
                    Some(c) => Ok(PromptView::Chat(c)),
                    None => Err(PromptError::SchemaMismatch(PromptKind::Chat)),
                }
            } else {
                Ok(PromptView::Unknown)
            },
        },
    }
}

/// Parsing a completion document with all required fields yields a
/// completion with exactly the given vendor, model and prompt, and with its
/// parameter and example fields exactly as the document states them.
pub proof fn lemma_completion_fields_are_exact(
    s: Seq<char>,
    doc: YamlNode,
    m: Map<Seq<char>, YamlNode>,
)
    requires
        yaml_doc(s) == Some(doc),
        doc == YamlNode::Mapping(m),
        spec_req_str(m, "type"@) == Some("completion"@),
        spec_completion(doc) is Some,
    ensures
        ({
            let c = spec_completion(doc)->Some_0;
            &&& spec_parse(s) == Ok::<PromptView, PromptError>(PromptView::Completion(c))
            &&& Some(c.vendor) == spec_req_str(m, "vendor"@)
            &&& Some(c.model) == spec_req_str(m, "model"@)
            &&& Some(c.prompt) == spec_req_str(m, "prompt"@)
            &&& Some(c.parameters) == spec_parameters_field(m)
            &&& Some(c.examples) == spec_columns_field(m)
        }),
{
}

/// A valid parameter list keeps the document's order and count: entry `k` of
/// the result is exactly what entry `k` of the document states.
pub proof fn lemma_parameter_list_keeps_order_and_count(items: Seq<YamlNode>)
    requires
        spec_parameter_list(YamlNode::List(items)) is Some,
    ensures
        ({
            let ps = spec_parameter_list(YamlNode::List(items))->Some_0;
            &&& ps.len() == items.len()
            &&& forall|k: int|
                0 <= k < items.len() ==> Some(#[trigger] ps[k]) == spec_parameter(items[k])
        }),
{
}

/// A valid column list keeps the document's order and count as well.
pub proof fn lemma_column_list_keeps_order_and_count(items: Seq<YamlNode>)
    requires
        spec_column_list(YamlNode::List(items)) is Some,
    ensures
        ({
            let cs = spec_column_list(YamlNode::List(items))->Some_0;
            &&& cs.len() == items.len()
            &&& forall|k: int|
                0 <= k < items.len() ==> Some(#[trigger] cs[k]) == spec_column(items[k])
        }),
{
}

/// Parsing a chat document yields a chat whose `context` is absent when the
/// document omits it and whose `parameters` are absent when the document
/// omits them.
pub proof fn lemma_chat_omitted_fields_are_absent(
    s: Seq<char>,
    doc: YamlNode,
    m: Map<Seq<char>, YamlNode>,
)
    requires
        yaml_doc(s) == Some(doc),
        doc == YamlNode::Mapping(m),
        spec_req_str(m, "type"@) == Some("chat"@),
        spec_chat(doc) is Some,
    ensures
        ({
            let c = spec_chat(doc)->Some_0;
            &&& spec_parse(s) == Ok::<PromptView, PromptError>(PromptView::Chat(c))
            &&& !m.contains_key("context"@) ==> c.context is None
            &&& !m.contains_key("parameters"@) ==> c.parameters is None
        }),
{
    reveal_strlit("chat");
    reveal_strlit("completion");
    assert("chat"@.len() != "completion"@.len());
}

/// A document whose discriminator names neither known shape parses to
/// `Unknown`, never to an error: forward compatibility with template kinds
/// this library intentionally ignores.
pub proof fn lemma_unknown_type_is_not_an_error(s: Seq<char>, doc: YamlNode, t: Seq<char>)
    requires
        yaml_doc(s) == Some(doc),
        spec_doc_type(doc) == Some(t),
        t != "completion"@,
        t != "chat"@,
    ensures
        spec_parse(s) == Ok::<PromptView, PromptError>(PromptView::Unknown),
{
}

fn read_req_str(v: &serde_yaml::Value, key: &str) -> (r: Option<String>)
    ensures
        match yaml_shape(*v) {
            YamlNode::Mapping(m) => match (r, spec_req_str(m, key@)) {
                (Some(s), Some(t)) => s@ == t,
                (None, None) => true,
                _ => false,
            },
            _ => r is None,
        },
{
    match get_field(v, key) {
        Some(fv) => value_as_str(fv),
        None => None,
    }
}

fn read_opt_str(v: &serde_yaml::Value, key: &str) -> (r: Option<Option<String>>)
    ensures
        match yaml_shape(*v) {
            YamlNode::Mapping(m) => match (r, spec_opt_str(m, key@)) {
                (Some(s), Some(t)) => s.deep_view() == t,
                (None, None) => true,
                _ => false,
            },
            _ => r == Some(None::<String>),
        },
{
    match get_field(v, key) {
        Some(fv) => {
            if value_is_null(fv) {
                Some(None)
            } else {
                match value_as_str(fv) {
                    Some(s) => Some(Some(s)),
                    None => None,
                }
            }
        },
        None => Some(None),
    }
}

fn read_scalar(v: &serde_yaml::Value) -> (r: ScalarValue)
    ensures
        r@ == scalar_of(yaml_shape(*v)),
{
    match value_as_i64(v) {
        Some(i) => ScalarValue::Int(i),
        None => match value_as_bool(v) {
            Some(b) => ScalarValue::Bool(b),
            None => match value_as_str(v) {
                Some(t) => ScalarValue::Text(t),
                None => match value_number_text(v) {
                    Some(t) => ScalarValue::Decimal(t),
                    None => ScalarValue::Other,
                },
            },
        },
    }
}

fn read_parameter(v: &serde_yaml::Value) -> (r: Option<Parameter>)
    ensures
        match (r, spec_parameter(yaml_shape(*v))) {
            (Some(p), Some(pv)) => p.deep_view() == pv,
            (None, None) => true,
            _ => false,
        },
{
    match read_req_str(v, "name") {
        Some(nm) => match get_field(v, "value") {
            Some(fv) => Some(Parameter { name: nm, value: read_scalar(fv) }),
            None => None,
        },
        None => None,
    }
}

fn read_parameter_list(v: &serde_yaml::Value) -> (r: Option<Vec<Parameter>>)
    ensures
        match (r, spec_parameter_list(yaml_shape(*v))) {
            (Some(ps), Some(sv)) => ps.deep_view() == sv,
            (None, None) => true,
            _ => false,
        },
{
    match value_as_sequence(v) {
        None => None,
        Some(seq) => {
            let ghost items: Seq<YamlNode> = yaml_shape(*v)->List_0;
            let mut out: Vec<Parameter> = Vec::new();
            let mut k: usize = 0;
            while k < seq.len()
                invariant
                    k <= seq.len(),
                    yaml_shape(*v) == YamlNode::List(items),
                    seq@.len() == items.len(),
                    forall|j: int| 0 <= j < items.len() ==> yaml_shape(#[trigger] seq@[j]) == items[j],
                    out.len() == k,
                    forall|j: int|
                        0 <= j < k ==> (#[trigger] spec_parameter(items[j])) is Some
                            && out.deep_view()[j] == spec_parameter(items[j])->Some_0,
                decreases seq.len() - k,
            {
                match read_parameter(&seq[k]) {
                    Some(p) => {
                        out.push(p);
                    },
                    None => {
                        proof {
                            assert(spec_parameter(items[k as int]) is None);
                        }
                        return None;
                    },
                }
                k = k + 1;
            }
            proof {
                assert(spec_parameter_list(yaml_shape(*v)) is Some);
                assert(out.deep_view() =~= spec_parameter_list(yaml_shape(*v))->Some_0);
            }
            Some(out)
        },
    }
}

fn read_parameters_field(v: &serde_yaml::Value) -> (r: Option<Option<Vec<Parameter>>>)
    ensures
        match yaml_shape(*v) {
            YamlNode::Mapping(m) => match (r, spec_parameters_field(m)) {
                (Some(ps), Some(sv)) => ps.deep_view() == sv,
                (None, None) => true,
                _ => false,
            },
            _ => r == Some(None::<Vec<Parameter>>),
        },
{
    match get_field(v, "parameters") {
        None => Some(None),
        Some(fv) => {
            if value_is_null(fv) {
                Some(None)
            } else {
                match read_parameter_list(fv) {
                    Some(ps) => Some(Some(ps)),
                    None => None,
                }
            }
        },
    }
}

fn read_string_list(v: &serde_yaml::Value) -> (r: Option<Vec<String>>)
    ensures
        match (r, spec_string_list(yaml_shape(*v))) {
            (Some(vs), Some(sv)) => vs.deep_view() == sv,
            (None, None) => true,
            _ => false,
        },
{
    match value_as_sequence(v) {
        None => None,
        Some(seq) => {
            let ghost items: Seq<YamlNode> = yaml_shape(*v)->List_0;
            let mut out: Vec<String> = Vec::new();
            let mut k: usize = 0;
            while k < seq.len()
                invariant
                    k <= seq.len(),
                    yaml_shape(*v) == YamlNode::List(items),
                    seq@.len() == items.len(),
                    forall|j: int| 0 <= j < items.len() ==> yaml_shape(#[trigger] seq@[j]) == items[j],
                    out.len() == k,
                    forall|j: int|
                        0 <= j < k ==> (#[trigger] items[j]) is Str && out.deep_view()[j]
                            == items[j]->Str_0,
                decreases seq.len() - k,
            {
                match value_as_str(&seq[k]) {
                    Some(s) => {
                        out.push(s);
                    },
                    None => {
                        proof {
                            assert(!(items[k as int] is Str));
                        }
                        return None;
                    },
                }
                k = k + 1;
            }
            proof {
                assert(spec_string_list(yaml_shape(*v)) is Some);
                assert(out.deep_view() =~= spec_string_list(yaml_shape(*v))->Some_0);
            }
            Some(out)
        },
    }
}

fn read_column(v: &serde_yaml::Value) -> (r: Option<CompletionExampleColumn>)
    ensures
        match (r, spec_column(yaml_shape(*v))) {
            (Some(c), Some(cv)) => c.deep_view() == cv,
            (None, None) => true,
            _ => false,
        },
{
    match read_req_str(v, "name") {
        Some(nm) => match get_field(v, "values") {
            Some(fv) => match read_string_list(fv) {
                Some(vs) => match read_opt_str(v, "test") {
                    Some(t) => Some(CompletionExampleColumn { name: nm, values: vs, test: t }),
                    None => None,
                },
                None => None,
            },
            None => None,
        },
        None => None,
    }
}

fn read_column_list(v: &serde_yaml::Value) -> (r: Option<Vec<CompletionExampleColumn>>)
    ensures
        match (r, spec_column_list(yaml_shape(*v))) {
            (Some(cs), Some(sv)) => cs.deep_view() == sv,
            (None, None) => true,
            _ => false,
        },
{
    match value_as_sequence(v) {
        None => None,
        Some(seq) => {
            let ghost items: Seq<YamlNode> = yaml_shape(*v)->List_0;
            let mut out: Vec<CompletionExampleColumn> = Vec::new();
            let mut k: usize = 0;
            while k < seq.len()
                invariant
                    k <= seq.len(),
                    yaml_shape(*v) == YamlNode::List(items),
                    seq@.len() == items.len(),
                    forall|j: int| 0 <= j < items.len() ==> yaml_shape(#[trigger] seq@[j]) == items[j],
                    out.len() == k,
                    forall|j: int|
                        0 <= j < k ==> (#[trigger] spec_column(items[j])) is Some
                            && out.deep_view()[j] == spec_column(items[j])->Some_0,
                decreases seq.len() - k,
            {
                match read_column(&seq[k]) {
                    Some(c) => {
                        out.push(c);
                    },
                    None => {
                        proof {
                            assert(spec_column(items[k as int]) is None);
                        }
                        return None;
                    },
                }
                k = k + 1;
            }
            proof {
                assert(spec_column_list(yaml_shape(*v)) is Some);
                assert(out.deep_view() =~= spec_column_list(yaml_shape(*v))->Some_0);
            }
            Some(out)
        },
    }
}

fn read_columns_field(v: &serde_yaml::Value) -> (r: Option<Option<Vec<CompletionExampleColumn>>>)
    ensures
        match yaml_shape(*v) {
            YamlNode::Mapping(m) => match (r, spec_columns_field(m)) {
                (Some(cs), Some(sv)) => cs.deep_view() == sv,
                (None, None) => true,
                _ => false,
            },
            _ => r == Some(None::<Vec<CompletionExampleColumn>>),
        },
{
    match get_field(v, "examples") {
        None => Some(None),
        Some(fv) => {
            if value_is_null(fv) {
                Some(None)
            } else {
                match read_column_list(fv) {
                    Some(cs) => Some(Some(cs)),
                    None => None,
                }
            }
        },
    }
}

fn read_chat_example(v: &serde_yaml::Value) -> (r: Option<ChatExample>)
    ensures
        match (r, spec_chat_example(yaml_shape(*v))) {
            (Some(e), Some(ev)) => e.deep_view() == ev,
            (None, None) => true,
            _ => false,
        },
{
    match read_req_str(v, "input") {
        Some(inp) => match read_opt_str(v, "output") {
            Some(out) => Some(ChatExample { input: inp, output: out }),
            None => None,
        },
        None => None,
    }
}

fn read_chat_example_list(v: &serde_yaml::Value) -> (r: Option<Vec<ChatExample>>)
    ensures
        match (r, spec_chat_example_list(yaml_shape(*v))) {
            (Some(es), Some(sv)) => es.deep_view() == sv,
            (None, None) => true,
            _ => false,
        },
{
    match value_as_sequence(v) {
        None => None,
        Some(seq) => {
            let ghost items: Seq<YamlNode> = yaml_shape(*v)->List_0;
            let mut out: Vec<ChatExample> = Vec::new();
            let mut k: usize = 0;
            while k < seq.len()
                invariant
                    k <= seq.len(),
                    yaml_shape(*v) == YamlNode::List(items),
                    seq@.len() == items.len(),
                    forall|j: int| 0 <= j < items.len() ==> yaml_shape(#[trigger] seq@[j]) == items[j],
                    out.len() == k,
                    forall|j: int|
                        0 <= j < k ==> (#[trigger] spec_chat_example(items[j])) is Some
                            && out.deep_view()[j] == spec_chat_example(items[j])->Some_0,
                decreases seq.len() - k,
            {
                match read_chat_example(&seq[k]) {
                    Some(e) => {
                        out.push(e);
                    },
                    None => {
                        proof {
                            assert(spec_chat_example(items[k as int]) is None);
                        }
                        return None;
                    },
                }
                k = k + 1;
            }
            proof {
                assert(spec_chat_example_list(yaml_shape(*v)) is Some);
                assert(out.deep_view() =~= spec_chat_example_list(yaml_shape(*v))->Some_0);
            }
            Some(out)
        },
    }
}

fn read_chat_examples_field(v: &serde_yaml::Value) -> (r: Option<Option<Vec<ChatExample>>>)
    ensures
        match yaml_shape(*v) {
            YamlNode::Mapping(m) => match (r, spec_chat_examples_field(m)) {
                (Some(es), Some(sv)) => es.deep_view() == sv,
                (None, None) => true,
                _ => false,
            },
            _ => r == Some(None::<Vec<ChatExample>>),
        },
{
    match get_field(v, "examples") {
        None => Some(None),
        Some(fv) => {
            if value_is_null(fv) {
                Some(None)
            } else {
                match read_chat_example_list(fv) {
                    Some(es) => Some(Some(es)),
                    None => None,
                }
            }
        },
    }
}

fn read_message(v: &serde_yaml::Value) -> (r: Option<Message>)
    ensures
        match (r, spec_message(yaml_shape(*v))) {
            (Some(msg), Some(mv)) => msg.deep_view() == mv,
            (None, None) => true,
            _ => false,
        },
{
    match read_req_str(v, "input") {
        Some(inp) => match read_opt_str(v, "output") {
            Some(out) => Some(Message { input: inp, output: out }),
            None => None,
        },
        None => None,
    }
}

fn read_message_list(v: &serde_yaml::Value) -> (r: Option<Vec<Message>>)
    ensures
        match (r, spec_message_list(yaml_shape(*v))) {
            (Some(ms), Some(sv)) => ms.deep_view() == sv,
            (None, None) => true,
            _ => false,
        },
{
    match value_as_sequence(v) {
        None => None,
        Some(seq) => {
            let ghost items: Seq<YamlNode> = yaml_shape(*v)->List_0;
            let mut out: Vec<Message> = Vec::new();
            let mut k: usize = 0;
            while k < seq.len()
                invariant
                    k <= seq.len(),
                    yaml_shape(*v) == YamlNode::List(items),
                    seq@.len() == items.len(),
                    forall|j: int| 0 <= j < items.len() ==> yaml_shape(#[trigger] seq@[j]) == items[j],
                    out.len() == k,
                    forall|j: int|
                        0 <= j < k ==> (#[trigger] spec_message(items[j])) is Some
                            && out.deep_view()[j] == spec_message(items[j])->Some_0,
                decreases seq.len() - k,
            {
                match read_message(&seq[k]) {
                    Some(msg) => {
                        out.push(msg);
                    },
                    None => {
                        proof {
                            assert(spec_message(items[k as int]) is None);
                        }
                        return None;
                    },
                }
                k = k + 1;
            }
            proof {
                assert(spec_message_list(yaml_shape(*v)) is Some);
                assert(out.deep_view() =~= spec_message_list(yaml_shape(*v))->Some_0);
            }
            Some(out)
        },
    }
}

fn read_messages_field(v: &serde_yaml::Value) -> (r: Option<Option<Vec<Message>>>)
    ensures
        match yaml_shape(*v) {
            YamlNode::Mapping(m) => match (r, spec_messages_field(m)) {
                (Some(ms), Some(sv)) => ms.deep_view() == sv,
                (None, None) => true,
                _ => false,
            },
            _ => r == Some(None::<Vec<Message>>),
        },
{
    match get_field(v, "messages") {
        None => Some(None),
        Some(fv) => {
            if value_is_null(fv) {
                Some(None)
            } else {
                match read_message_list(fv) {
                    Some(ms) => Some(Some(ms)),
                    None => None,
                }
            }
        },
    }
}

fn read_completion(v: &serde_yaml::Value) -> (r: Option<Completion>)
    ensures
        match (r, spec_completion(yaml_shape(*v))) {
            (Some(c), Some(cv)) => c@ == cv,
            (None, None) => true,
            _ => false,
        },
{
    let ty = match read_req_str(v, "type") {
        Some(s) => s,
        None => {
            return None;
        },
    };
    let vendor = match read_req_str(v, "vendor") {
        Some(s) => s,
        None => {
            return None;
        },
    };
    let model = match read_req_str(v, "model") {
        Some(s) => s,
        None => {
            return None;
        },
    };
    let prompt = match read_req_str(v, "prompt") {
        Some(s) => s,
        None => {
            return None;
        },
    };
    let parameters = match read_parameters_field(v) {
        Some(ps) => ps,
        None => {
            return None;
        },
    };
    let examples = match read_columns_field(v) {
        Some(cs) => cs,
        None => {
            return None;
        },
    };
    Some(
        Completion {
            prompt_type: ty,
            vendor,
            model,
            prompt,
            parameters,
            examples,
        },
    )
}

fn read_chat(v: &serde_yaml::Value) -> (r: Option<Chat>)
    ensures
        match (r, spec_chat(yaml_shape(*v))) {
            (Some(c), Some(cv)) => c@ == cv,
            (None, None) => true,
            _ => false,
        },
{
    let ty = match read_req_str(v, "type") {
        Some(s) => s,
        None => {
            return None;
        },
    };
    let vendor = match read_req_str(v, "vendor") {
        Some(s) => s,
        None => {
            return None;
        },
    };
    let model = match read_req_str(v, "model") {
        Some(s) => s,
        None => {
            return None;
        },
    };
    let parameters = match read_parameters_field(v) {
        Some(ps) => ps,
        None => {
            return None;
        },
    };
    let examples = match read_chat_examples_field(v) {
        Some(es) => es,
        None => {
            return None;
        },
    };
    let context = match read_opt_str(v, "context") {
        Some(cx) => cx,
        None => {
            return None;
        },
    };
    let messages = match read_messages_field(v) {
        Some(ms) => ms,
        None => {
            return None;
        },
    };
    Some(
        Chat {
            prompt_type: ty,
            vendor,
            model,
            parameters,
            examples,
            context,
            messages,
        },
    )
}

/// Parses a template document. A text that is no valid document, or that
/// lacks a string `type`, is malformed; a known discriminator selects its
/// schema and a mismatch against it names the shape; any other discriminator
/// yields `Unknown`.
pub fn deserialize_prompt(yaml: &str) -> (r: Result<Prompt, PromptError>)
    ensures
        match (r, spec_parse(yaml@)) {
            (Ok(p), Ok(pv)) => p@ == pv,
            (Err(e), Err(ev)) => e == ev,
            _ => false,
        },
{
    let doc = match parse_document(yaml) {
        Some(d) => d,
        None => {
            return Err(PromptError::MalformedDocument);
        },
    };
    let t = match read_req_str(&doc, "type") {
        Some(t) => t,
        None => {
            return Err(PromptError::MalformedDocument);
        },
    };
    if str_eq(t.as_str(), "completion") {
        match read_completion(&doc) {
            Some(c) => Ok(Prompt::Completion(c)),
            None => Err(PromptError::SchemaMismatch(PromptKind::Completion)),
        }
    } else if str_eq(t.as_str(), "chat") {
        match read_chat(&doc) {
            Some(c) => Ok(Prompt::Chat(c)),
            None => Err(PromptError::SchemaMismatch(PromptKind::Chat)),
        }
    } else {
        Ok(Prompt::Unknown)
    }
}

} // verus!

