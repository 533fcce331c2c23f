//! The template data model: scalar parameter values, parameters, example
//! columns, chat exchanges, and the completion / chat template shapes, with
//! the parameter lookup and coercion functions shared by both shapes.

use vstd::prelude::*;

verus! {

/// A dynamically typed scalar taken from a configuration document.
///
/// A non-integer number is carried as its decimal text (`Decimal`), so that a
/// caller that wants floating point can convert it outside this library.
/// `Other` stands for any document value that is none of the scalar kinds
/// (a null, a nested list or mapping): it is stored, but every coercion of
/// it fails.
#[derive(Debug)]
pub enum ScalarValue {
    Int(i64),
    Decimal(String),
    Text(String),
    Bool(bool),
    Other,
}

/// The mathematical view of a `ScalarValue`.
pub enum ScalarView {
    Int(i64),
    Decimal(Seq<char>),
    Text(Seq<char>),
    Bool(bool),
    Other,
}

impl View for ScalarValue {
    type V = ScalarView;

    open spec fn view(&self) -> ScalarView {
        match self {
            ScalarValue::Int(i) => ScalarView::Int(*i),
            ScalarValue::Decimal(s) => ScalarView::Decimal(s@),
            ScalarValue::Text(s) => ScalarView::Text(s@),
            ScalarValue::Bool(b) => ScalarView::Bool(*b),
            ScalarValue::Other => ScalarView::Other,
        }
    }
}

impl DeepView for ScalarValue {
    type V = ScalarView;

    open spec fn deep_view(&self) -> ScalarView {
        self.view()
    }
}

impl Clone for ScalarValue {
    fn clone(&self) -> (r: Self)
        ensures
            r == *self,
    {
        match self {
            ScalarValue::Int(i) => ScalarValue::Int(*i),
            ScalarValue::Decimal(s) => ScalarValue::Decimal(s.clone()),
            ScalarValue::Text(s) => ScalarValue::Text(s.clone()),
            ScalarValue::Bool(b) => ScalarValue::Bool(*b),
            ScalarValue::Other => ScalarValue::Other,
        }
    }
}

/// A named parameter of a template, such as a token limit or a temperature.
#[derive(Debug)]
pub struct Parameter {
    pub name: String,
    pub value: ScalarValue,
}

pub struct ParameterView {
    pub name: Seq<char>,
    pub value: ScalarView,
}

impl DeepView for Parameter {
    type V = ParameterView;

    open spec fn deep_view(&self) -> ParameterView {
        ParameterView { name: self.name@, value: self.value@ }
    }
}

/// One named column of a completion example table: an ordered list of example
/// values and an optional test value for the final rendered row.
#[derive(Debug)]
pub struct CompletionExampleColumn {
    pub name: String,
    pub values: Vec<String>,
    pub test: Option<String>,
}

pub struct ColumnView {
    pub name: Seq<char>,
    pub values: Seq<Seq<char>>,
    pub test: Option<Seq<char>>,
}

impl DeepView for CompletionExampleColumn {
    type V = ColumnView;

    open spec fn deep_view(&self) -> ColumnView {
        ColumnView {
            name: self.name@,
            values: self.values.deep_view(),
            test: self.test.deep_view(),
        }
    }
}

/// One example exchange used to prime a chat model.
#[derive(Debug)]
pub struct ChatExample {
    pub input: String,
    pub output: Option<String>,
}

pub struct ChatExampleView {
    pub input: Seq<char>,
    pub output: Option<Seq<char>>,
}

impl DeepView for ChatExample {
    type V = ChatExampleView;

    open spec fn deep_view(&self) -> ChatExampleView {
        ChatExampleView { input: self.input@, output: self.output.deep_view() }
    }
}

/// One turn of an actual chat history.
#[derive(Debug)]
pub struct Message {
    pub input: String,
    pub output: Option<String>,
}

pub struct MessageView {
    pub input: Seq<char>,
    pub output: Option<Seq<char>>,
}

impl DeepView for Message {
    type V = MessageView;

    open spec fn deep_view(&self) -> MessageView {
        MessageView { input: self.input@, output: self.output.deep_view() }
    }
}

/// A completion template: a base prompt plus optional parameters and an
/// optional example table.
#[derive(Debug)]
pub struct Completion {
    pub prompt_type: String,
    pub vendor: String,
    pub model: String,
    pub prompt: String,
    pub parameters: Option<Vec<Parameter>>,
    pub examples: Option<Vec<CompletionExampleColumn>>,
}

pub struct CompletionView {
    pub prompt_type: Seq<char>,
    pub vendor: Seq<char>,
    pub model: Seq<char>,
    pub prompt: Seq<char>,
    pub parameters: Option<Seq<ParameterView>>,
    pub examples: Option<Seq<ColumnView>>,
}

impl View for Completion {
    type V = CompletionView;

    open spec fn view(&self) -> CompletionView {
        CompletionView {
            prompt_type: self.prompt_type@,
            vendor: self.vendor@,
            model: self.model@,
            prompt: self.prompt@,
            parameters: self.parameters.deep_view(),
            examples: self.examples.deep_view(),
        }
    }
}

impl DeepView for Completion {
    type V = CompletionView;

    open spec fn deep_view(&self) -> CompletionView {
        self.view()
    }
}

/// A chat template: optional context, example exchanges and message history.
#[derive(Debug)]
pub struct Chat {
    pub prompt_type: String,
    pub vendor: String,
    pub model: String,
    pub parameters: Option<Vec<Parameter>>,
    pub examples: Option<Vec<ChatExample>>,
    pub context: Option<String>,
    pub messages: Option<Vec<Message>>,
}

pub struct ChatView {
    pub prompt_type: Seq<char>,
    pub vendor: Seq<char>,
    pub model: Seq<char>,
    pub parameters: Option<Seq<ParameterView>>,
    pub examples: Option<Seq<ChatExampleView>>,
    pub context: Option<Seq<char>>,
    pub messages: Option<Seq<MessageView>>,
}

impl View for Chat {
    type V = ChatView;

    open spec fn view(&self) -> ChatView {
        ChatView {
            prompt_type: self.prompt_type@,
            vendor: self.vendor@,
            model: self.model@,
            parameters: self.parameters.deep_view(),
            examples: self.examples.deep_view(),
            context: self.context.deep_view(),
            messages: self.messages.deep_view(),
        }
    }
}

impl DeepView for Chat {
    type V = ChatView;

    open spec fn deep_view(&self) -> ChatView {
        self.view()
    }
}

/// A parsed template: one of the known shapes, or `Unknown` for a document
/// whose discriminator names a kind this library does not handle.
#[derive(Debug)]
pub enum Prompt {
    Completion(Completion),
    Chat(Chat),
    Unknown,
}

pub enum PromptView {
    Completion(CompletionView),
    Chat(ChatView),
    Unknown,
}

impl View for Prompt {
    type V = PromptView;

    open spec fn view(&self) -> PromptView {
        match self {
            Prompt::Completion(c) => PromptView::Completion(c@),
            Prompt::Chat(c) => PromptView::Chat(c@),
            Prompt::Unknown => PromptView::Unknown,
        }
    }
}

/// Which template shape a schema error was found in.
#[derive(Clone, Copy, PartialEq, Eq, Structural, Debug)]
pub enum PromptKind {
    Completion,
    Chat,
}

/// The errors of this library.
///
/// `MalformedDocument`: the text is not a valid document, or lacks a string
/// `type` field. `SchemaMismatch`: the discriminator named a known shape but
/// a required field is missing or mistyped. `TypeMismatch`: a parameter
/// coercion was asked for a scalar kind the value does not have.
#[derive(Clone, Copy, PartialEq, Eq, Structural, Debug)]
pub enum PromptError {
    MalformedDocument,
    SchemaMismatch(PromptKind),
    TypeMismatch,
}

/// The first parameter of the given name, if any: lookup is in list order and
/// the first match wins.
pub open spec fn spec_find(params: Seq<ParameterView>, name: Seq<char>) -> Option<ScalarView>
    decreases params.len(),
{
    if params.len() == 0 {
        None
    } else if params[0].name == name {
        Some(params[0].value)
    } else {
        spec_find(params.drop_first(), name)
    }
}

/// `spec_find` lifted to an optional parameter list: an absent list holds
/// nothing.
pub open spec fn spec_find_opt(params: Option<Seq<ParameterView>>, name: Seq<char>) -> Option<
    ScalarView,
> {
    match params {
        Some(ps) => spec_find(ps, name),
        None => None,
    }
}

/// Compares two string slices by contents.
pub(crate) fn str_eq(a: &str, b: &str) -> (r: bool)
    ensures
        r == (a@ == b@),
{
    let sa = String::from_str(a);
    let sb = String::from_str(b);
    sa == sb
}

/// Looks up a parameter by exact name; the first match wins, and an absent
/// list yields `None`.
pub fn find_parameter(parameters: &Option<Vec<Parameter>>, name: &str) -> (r: Option<ScalarValue>)
    ensures
        r.deep_view() == spec_find_opt(parameters.deep_view(), name@),
{
    match parameters {
        Some(real_parameters) => {
            let ghost pv: Seq<ParameterView> = real_parameters.deep_view();
            proof {
                assert(pv.skip(0) =~= pv);
            }
            let mut idx: usize = 0;
            while idx < real_parameters.len()
                invariant
                    idx <= real_parameters.len(),
                    pv == real_parameters.deep_view(),
                    pv.len() == real_parameters.len(),
                    parameters.deep_view() == Some(pv),
                    spec_find(pv.skip(idx as int), name@) == spec_find(pv, name@),
                decreases real_parameters.len() - idx,
            {
                proof {
                    assert(pv.skip(idx as int).len() > 0);
                    assert(pv.skip(idx as int)[0] == pv[idx as int]);
                }
                let p = &real_parameters[idx];
                proof {
                    assert(pv[idx as int] == real_parameters@[idx as int].deep_view());
                }
                if str_eq(p.name.as_str(), name) {
                    let r = Some(p.value.clone());
                    proof {
                        assert(pv[idx as int].name == name@);
                        assert(spec_find(pv.skip(idx as int), name@) == Some(
                            pv[idx as int].value,
                        ));
                        assert(r.deep_view() == Some(pv[idx as int].value));
                    }
                    return r;
                }
                proof {
                    assert(pv.skip(idx as int).drop_first() =~= pv.skip(idx as int + 1));
                }
                idx = idx + 1;
            }
            proof {
                assert(pv.skip(real_parameters.len() as int) =~= Seq::<ParameterView>::empty());
            }
            None
        },
        None => None,
    }
}

/// What coercion to a 32-bit integer yields for a looked-up value: only an
/// integer that fits yields the integer; any other present value is a
/// `TypeMismatch`; an absent parameter is simply absent.
pub open spec fn spec_as_i32(v: Option<ScalarView>) -> Result<Option<i32>, PromptError> {
    match v {
        None => Ok(None),
        Some(ScalarView::Int(i)) => if i32::MIN <= i <= i32::MAX {
            Ok(Some(i as i32))
        } else {
            Err(PromptError::TypeMismatch)
        },
        Some(_) => Err(PromptError::TypeMismatch),
    }
}

/// What coercion to a number yields: an integer or a decimal value passes
/// through unchanged (either satisfies a floating-point request); any other
/// present value is a `TypeMismatch`.
pub open spec fn spec_as_number(v: Option<ScalarView>) -> Result<Option<ScalarView>, PromptError> {
    match v {
        None => Ok(None),
        Some(ScalarView::Int(i)) => Ok(Some(ScalarView::Int(i))),
        Some(ScalarView::Decimal(t)) => Ok(Some(ScalarView::Decimal(t))),
        Some(_) => Err(PromptError::TypeMismatch),
    }
}

/// What coercion to a string yields: only a text value passes.
pub open spec fn spec_as_str(v: Option<ScalarView>) -> Result<Option<Seq<char>>, PromptError> {
    match v {
        None => Ok(None),
        Some(ScalarView::Text(t)) => Ok(Some(t)),
        Some(_) => Err(PromptError::TypeMismatch),
    }
}

/// What coercion to a boolean yields: only a boolean value passes.
pub open spec fn spec_as_bool(v: Option<ScalarView>) -> Result<Option<bool>, PromptError> {
    match v {
        None => Ok(None),
        Some(ScalarView::Bool(b)) => Ok(Some(b)),
        Some(_) => Err(PromptError::TypeMismatch),
    }
}

fn coerce_i32(v: Option<ScalarValue>) -> (r: Result<Option<i32>, PromptError>)
    ensures
        r == spec_as_i32(v.deep_view()),
{
    match v {
        None => Ok(None),
        Some(ScalarValue::Int(i)) => {
            if i32::MIN as i64 <= i && i <= i32::MAX as i64 {
                Ok(Some(i as i32))
            } else {
                Err(PromptError::TypeMismatch)
            }
        },
        Some(_) => Err(PromptError::TypeMismatch),
    }
}

fn coerce_number(v: Option<ScalarValue>) -> (r: Result<Option<ScalarValue>, PromptError>)
    ensures
        match (r, spec_as_number(v.deep_view())) {
            (Ok(a), Ok(b)) => a.deep_view() == b,
            (Err(a), Err(b)) => a == b,
            _ => false,
        },
{
    match v {
        None => Ok(None),
        Some(ScalarValue::Int(i)) => Ok(Some(ScalarValue::Int(i))),
        Some(ScalarValue::Decimal(t)) => Ok(Some(ScalarValue::Decimal(t))),
        Some(_) => Err(PromptError::TypeMismatch),
    }
}

fn coerce_str(v: Option<ScalarValue>) -> (r: Result<Option<String>, PromptError>)
    ensures
        match (r, spec_as_str(v.deep_view())) {
            (Ok(a), Ok(b)) => a.deep_view() == b,
            (Err(a), Err(b)) => a == b,
            _ => false,
        },
{
    match v {
        None => Ok(None),
        Some(ScalarValue::Text(t)) => Ok(Some(t)),
        Some(_) => Err(PromptError::TypeMismatch),
    }
}

fn coerce_bool(v: Option<ScalarValue>) -> (r: Result<Option<bool>, PromptError>)
    ensures
        r == spec_as_bool(v.deep_view()),
{
    match v {
        None => Ok(None),
        Some(ScalarValue::Bool(b)) => Ok(Some(b)),
        Some(_) => Err(PromptError::TypeMismatch),
    }
}

impl Completion {
    /// The named parameter coerced to a 32-bit integer; `Ok(None)` when the
    /// name is absent, `TypeMismatch` when the value is not a fitting integer.
    pub fn find_parameter_as_i32(&self, name: &str) -> (r: Result<Option<i32>, PromptError>)
        ensures
            r == spec_as_i32(spec_find_opt(self@.parameters, name@)),
    {
        coerce_i32(find_parameter(&self.parameters, name))
    }

    /// The named parameter as a number (integer or decimal text), for callers
    /// that want floating point; any non-numeric value is a `TypeMismatch`.
    pub fn find_parameter_as_number(&self, name: &str) -> (r: Result<
        Option<ScalarValue>,
        PromptError,
    >)
        ensures
            match (r, spec_as_number(spec_find_opt(self@.parameters, name@))) {
                (Ok(a), Ok(b)) => a.deep_view() == b,
                (Err(a), Err(b)) => a == b,
                _ => false,
            },
    {
        coerce_number(find_parameter(&self.parameters, name))
    }

    /// The named parameter coerced to a string.
    pub fn find_parameter_as_str(&self, name: &str) -> (r: Result<Option<String>, PromptError>)
        ensures
            match (r, spec_as_str(spec_find_opt(self@.parameters, name@))) {
                (Ok(a), Ok(b)) => a.deep_view() == b,
                (Err(a), Err(b)) => a == b,
                _ => false,
            },
    {
        coerce_str(find_parameter(&self.parameters, name))
    }

    /// The named parameter coerced to a boolean.
    pub fn find_parameter_as_bool(&self, name: &str) -> (r: Result<Option<bool>, PromptError>)
        ensures
            r == spec_as_bool(spec_find_opt(self@.parameters, name@)),
    {
        coerce_bool(find_parameter(&self.parameters, name))
    }
}

impl Chat {
    /// The named parameter coerced to a 32-bit integer; `Ok(None)` when the
    /// name is absent, `TypeMismatch` when the value is not a fitting integer.
    pub fn find_parameter_as_i32(&self, name: &str) -> (r: Result<Option<i32>, PromptError>)
        ensures
            r == spec_as_i32(spec_find_opt(self@.parameters, name@)),
    {
        coerce_i32(find_parameter(&self.parameters, name))
    }

    /// The named parameter as a number (integer or decimal text), for callers
    /// that want floating point; any non-numeric value is a `TypeMismatch`.
    pub fn find_parameter_as_number(&self, name: &str) -> (r: Result<
        Option<ScalarValue>,
        PromptError,
    >)
        ensures
            match (r, spec_as_number(spec_find_opt(self@.parameters, name@))) {
                (Ok(a), Ok(b)) => a.deep_view() == b,
                (Err(a), Err(b)) => a == b,
                _ => false,
            },
    {
        coerce_number(find_parameter(&self.parameters, name))
    }

    /// The named parameter coerced to a string.
    pub fn find_parameter_as_str(&self, name: &str) -> (r: Result<Option<String>, PromptError>)
        ensures
            match (r, spec_as_str(spec_find_opt(self@.parameters, name@))) {
                (Ok(a), Ok(b)) => a.deep_view() == b,
                (Err(a), Err(b)) => a == b,
                _ => false,
            },
    {
        coerce_str(find_parameter(&self.parameters, name))
    }

    /// The named parameter coerced to a boolean.
    pub fn find_parameter_as_bool(&self, name: &str) -> (r: Result<Option<bool>, PromptError>)
        ensures
            r == spec_as_bool(spec_find_opt(self@.parameters, name@)),
    {
        coerce_bool(find_parameter(&self.parameters, name))
    }
}

} // verus!
