//! Entry points of a canister: their kinds, the shape a handler function
//! must have for each kind, and what is generated around a handler: the
//! exported name, the wrapper's name, the argument names and the way its
//! result is sent back.

use vstd::prelude::*;
use vstd::string::*;

verus! {

/// The kinds of entry points that a handler function can be marked as.
#[derive(Copy, Clone, Debug, PartialEq, Eq, Hash, Structural)]
pub enum EntryPoint {
    Init,
    PreUpgrade,
    PostUpgrade,
    InspectMessage,
    Heartbeat,
    Update,
    Query,
}

impl EntryPoint {
    /// The text of an entry point, as attributes and exported names spell it.
    pub open spec fn spec_name(&self) -> Seq<char> {
        match self {
            EntryPoint::Init => "init"@,
            EntryPoint::PreUpgrade => "pre_upgrade"@,
            EntryPoint::PostUpgrade => "post_upgrade"@,
            EntryPoint::InspectMessage => "inspect_message"@,
            EntryPoint::Heartbeat => "heartbeat"@,
            EntryPoint::Update => "update"@,
            EntryPoint::Query => "query"@,
        }
    }

    /// Every entry point but `update` and `query` is a lifecycle hook.
    pub open spec fn spec_is_lifecycle(&self) -> bool {
        !(*self is Update || *self is Query)
    }

    /// The message inspection, the one lifecycle hook that returns a value.
    pub open spec fn spec_is_inspect_message(&self) -> bool {
        *self is InspectMessage
    }

    /// The text of the entry point.
    pub fn name(&self) -> (name: &'static str)
        ensures
            name@ == self.spec_name(),
    {
        match self {
            EntryPoint::Init => "init",
            EntryPoint::PreUpgrade => "pre_upgrade",
            EntryPoint::PostUpgrade => "post_upgrade",
            EntryPoint::InspectMessage => "inspect_message",
            EntryPoint::Heartbeat => "heartbeat",
            EntryPoint::Update => "update",
            EntryPoint::Query => "query",
        }
    }

    /// The text of the entry point as an owned string.
    pub fn to_string(&self) -> (text: String)
        ensures
            text@ == self.spec_name(),
    {
        String::from_str(self.name())
    }

    /// Every entry point but `update` and `query` is a lifecycle hook.
    #[verifier::when_used_as_spec(spec_is_lifecycle)]
    pub fn is_lifecycle(&self) -> (b: bool)
        ensures
            b == self.spec_is_lifecycle(),
    {
        match &self {
            EntryPoint::Update | EntryPoint::Query => false,
            _ => true,
        }
    }

    /// Whether this is the message inspection.
    #[verifier::when_used_as_spec(spec_is_inspect_message)]
    pub fn is_inspect_message(&self) -> (b: bool)
        ensures
            b == self.spec_is_inspect_message(),
    {
        match &self {
            EntryPoint::InspectMessage => true,
            _ => false,
        }
    }
}

/// What a handler function returns, as far as its signature shows.
#[derive(Copy, Clone, Debug, PartialEq, Eq, Structural)]
pub enum ReturnShape {
    /// No return type is written.
    Nothing,
    /// A tuple with that many elements.
    Tuple(usize),
    /// Any other type.
    Single,
}

impl ReturnShape {
    /// The number of values that the function returns.
    pub open spec fn spec_len(&self) -> usize {
        match self {
            ReturnShape::Nothing => 0,
            ReturnShape::Tuple(n) => *n,
            ReturnShape::Single => 1,
        }
    }

    /// The number of values that the function returns.
    #[verifier::when_used_as_spec(spec_len)]
    pub fn len(&self) -> (n: usize)
        ensures
            n == self.spec_len(),
    {
        match self {
            ReturnShape::Nothing => 0,
            ReturnShape::Tuple(n) => *n,
            ReturnShape::Single => 1,
        }
    }
}

/// One parameter of a handler function.
#[derive(Clone, Debug, PartialEq, Eq)]
pub enum Param {
    /// `self` in any form.
    Receiver,
    /// A parameter bound to a plain identifier.
    Named(String),
    /// A parameter bound by any other pattern.
    Pattern,
}

/// What the generator reads of a handler function's signature.
#[derive(Clone, Debug, PartialEq, Eq)]
pub struct Signature {
    pub name: String,
    /// The number of generic parameters.
    pub generic_params: usize,
    pub is_async: bool,
    pub output: ReturnShape,
    pub inputs: Vec<Param>,
}

/// The arguments of the attribute.
#[derive(Clone, Debug, PartialEq, Eq)]
pub struct Config {
    /// The name to export the method under, in place of the function's.
    pub name: Option<String>,
    /// The function to ask before the handler runs.
    pub guard: Option<String>,
}

/// The part of the input that an error points at.
#[derive(Copy, Clone, Debug, PartialEq, Eq, Structural)]
pub enum ErrorPlace {
    /// The generic parameters of the function.
    Generics,
    /// The attribute itself.
    CallSite,
    /// The parameter with that index.
    Input(usize),
}

/// Why nothing is generated for a function.
#[derive(Clone, Debug, PartialEq, Eq)]
pub struct EntryError {
    pub place: ErrorPlace,
    pub message: String,
}

/// How the wrapper sends the handler's result back.
#[derive(Copy, Clone, Debug, PartialEq, Eq, Structural)]
pub enum ReplyCode {
    /// A lifecycle hook: nothing is sent.
    Nothing,
    /// The message inspection: the message is accepted if the result is true.
    AcceptIfTrue,
    /// No value: the fixed encoding of no arguments is the reply.
    EmptyReply,
    /// One value, encoded alone.
    EncodeOne,
    /// A tuple, encoded as an argument list.
    EncodeArgs,
}

/// What is generated around one handler function.
#[derive(Clone, Debug, PartialEq, Eq)]
pub struct EntryCode {
    /// The name of the generated wrapper function.
    pub outer_function: String,
    /// The name under which the canister exports the wrapper.
    pub export_name: String,
    pub guard: Option<String>,
    /// The names that the decoded arguments are bound to, one per parameter.
    /// Where there is none, the wrapper does not read the message's arguments.
    pub args: Vec<String>,
    pub reply: ReplyCode,
    /// An async handler is spawned, not called.
    pub spawn: bool,
}

/// The attribute of an entry point as it is written above a function.
pub open spec fn attribute(entry_point: EntryPoint) -> Seq<char> {
    "#["@ + entry_point.spec_name() + "]"@
}

/// The error for a function with generic parameters.
pub open spec fn generics_message(entry_point: EntryPoint) -> Seq<char> {
    attribute(entry_point) + " must be above a function with no generic parameters."@
}

/// The error for a lifecycle hook that returns a value.
pub open spec fn return_value_message(entry_point: EntryPoint) -> Seq<char> {
    attribute(entry_point) + " function cannot have a return value."@
}

/// The error for a message inspection that does not return one value.
pub open spec fn boolean_message(entry_point: EntryPoint) -> Seq<char> {
    attribute(entry_point) + " function must have a boolean return value."@
}

/// The error for an async lifecycle hook.
pub open spec fn async_message(entry_point: EntryPoint) -> Seq<char> {
    attribute(entry_point) + " function cannot be async."@
}

/// The error for a function that takes `self`.
pub open spec fn receiver_message(entry_point: EntryPoint) -> Seq<char> {
    attribute(entry_point)
        + " macro can not be used on a function with `self` as a parameter."@
}

/// The error for an item that is no function, with the parser's words.
pub open spec fn not_a_function_message(entry_point: EntryPoint, detail: Seq<char>) -> Seq<char> {
    attribute(entry_point) + " must be above a function. \n"@ + detail
}

/// The first rule that a function of this shape breaks for this kind of
/// entry point, with the place it is reported at.
pub open spec fn spec_check_shape(
    entry_point: EntryPoint,
    generic_params: usize,
    return_length: usize,
    is_async: bool,
) -> Option<(ErrorPlace, Seq<char>)> {
    if generic_params != 0 {
        Some((ErrorPlace::Generics, generics_message(entry_point)))
    } else if entry_point.spec_is_lifecycle() && !entry_point.spec_is_inspect_message()
        && return_length > 0 {
        Some((ErrorPlace::CallSite, return_value_message(entry_point)))
    } else if entry_point.spec_is_inspect_message() && return_length != 1 {
        Some((ErrorPlace::CallSite, boolean_message(entry_point)))
    } else if is_async && entry_point.spec_is_lifecycle() {
        Some((ErrorPlace::CallSite, async_message(entry_point)))
    } else {
        None
    }
}

/// The name of the generated wrapper function.
pub open spec fn spec_outer_function(entry_point: EntryPoint, name: Seq<char>) -> Seq<char> {
    "_ic_kit_canister_"@ + entry_point.spec_name() + "_"@ + name
}

/// The exported name: a lifecycle hook has the name of its kind; a method
/// has its kind and, after a space, the configured name or else the
/// function's.
pub open spec fn spec_export_name(
    entry_point: EntryPoint,
    name: Seq<char>,
    configured: Option<Seq<char>>,
) -> Seq<char> {
    if entry_point.spec_is_lifecycle() {
        "canister_"@ + entry_point.spec_name()
    } else {
        "canister_"@ + entry_point.spec_name() + " "@ + (match configured {
            Some(configured) => configured,
            None => name,
        })
    }
}

/// How the result is sent back: by the kind of entry point first, then by
/// the number of values returned.
pub open spec fn spec_reply_code(entry_point: EntryPoint, return_length: usize) -> ReplyCode {
    if entry_point.spec_is_inspect_message() {
        ReplyCode::AcceptIfTrue
    } else if entry_point.spec_is_lifecycle() {
        ReplyCode::Nothing
    } else if return_length == 0 {
        ReplyCode::EmptyReply
    } else if return_length == 1 {
        ReplyCode::EncodeOne
    } else {
        ReplyCode::EncodeArgs
    }
}

/// The character of one decimal digit.
pub open spec fn spec_digit(d: nat) -> Seq<char> {
    if d == 0 {
        "0"@
    } else if d == 1 {
        "1"@
    } else if d == 2 {
        "2"@
    } else if d == 3 {
        "3"@
    } else if d == 4 {
        "4"@
    } else if d == 5 {
        "5"@
    } else if d == 6 {
        "6"@
    } else if d == 7 {
        "7"@
    } else if d == 8 {
        "8"@
    } else {
        "9"@
    }
}

/// A number in decimal digits, without leading zeros.
pub open spec fn spec_decimal(n: nat) -> Seq<char>
    decreases n,
{
    if n < 10 {
        spec_digit(n)
    } else {
        spec_decimal(n / 10) + spec_digit(n % 10)
    }
}

/// The name that the argument at `index` is bound to.
pub open spec fn spec_arg_name(param: Param, index: nat) -> Seq<char> {
    match param {
        Param::Named(name) => name@,
        _ => "arg_"@ + spec_decimal(index),
    }
}

/// No parameter is `self`.
pub open spec fn no_receiver(inputs: Seq<Param>) -> bool {
    forall|i: int| 0 <= i < inputs.len() ==> !(#[trigger] inputs[i] is Receiver)
}

/// The parameter at `index` is the first `self` parameter.
pub open spec fn is_first_receiver(inputs: Seq<Param>, index: int) -> bool {
    &&& 0 <= index < inputs.len()
    &&& inputs[index] is Receiver
    &&& forall|i: int| 0 <= i < index ==> !(#[trigger] inputs[i] is Receiver)
}

/// An optional text as mathematical values.
pub open spec fn option_view(text: Option<String>) -> Option<Seq<char>> {
    match text {
        Some(text) => Some(text@),
        None => None,
    }
}

fn attribute_text(entry_point: EntryPoint) -> (text: String)
    ensures
        text@ == attribute(entry_point),
{
    let mut text = String::from_str("#[");
    text.append(entry_point.name());
    text.append("]");
    text
}

fn at(place: ErrorPlace, entry_point: EntryPoint, rest: &str) -> (e: EntryError)
    ensures
        e.place == place,
        e.message@ == attribute(entry_point) + rest@,
{
    let mut message = attribute_text(entry_point);
    message.append(rest);
    EntryError { place, message }
}

/// The error for an item that is no function; `detail` is what the parser
/// said of it.
pub fn not_a_function(entry_point: EntryPoint, detail: &str) -> (message: String)
    ensures
        message@ == not_a_function_message(entry_point, detail@),
{
    let mut message = attribute_text(entry_point);
    message.append(" must be above a function. \n");
    message.append(detail);
    message
}

/// Holds a function's shape against the rules of its kind of entry point:
/// no generic parameters; no return value for a lifecycle hook, but exactly
/// one for the message inspection; no async lifecycle hook.
pub fn check_shape(
    entry_point: EntryPoint,
    generic_params: usize,
    return_length: usize,
    is_async: bool,
) -> (r: Result<(), EntryError>)
    ensures
        match r {
            Ok(_) => spec_check_shape(entry_point, generic_params, return_length, is_async)
                is None,
            Err(e) => spec_check_shape(entry_point, generic_params, return_length, is_async)
                == Some((e.place, e.message@)),
        },
{
    if generic_params != 0 {
        return Err(
            at(
                ErrorPlace::Generics,
                entry_point,
                " must be above a function with no generic parameters.",
            ),
        );
    }
    if entry_point.is_lifecycle() && !entry_point.is_inspect_message() && return_length > 0 {
        return Err(at(ErrorPlace::CallSite, entry_point, " function cannot have a return value."));
    }
    if entry_point.is_inspect_message() && return_length != 1 {
        return Err(
            at(ErrorPlace::CallSite, entry_point, " function must have a boolean return value."),
        );
    }
    if is_async && entry_point.is_lifecycle() {
        return Err(at(ErrorPlace::CallSite, entry_point, " function cannot be async."));
    }
    Ok(())
}

/// The name of the generated wrapper function.
pub fn outer_function_name(entry_point: EntryPoint, name: &str) -> (text: String)
    ensures
        text@ == spec_outer_function(entry_point, name@),
{
    let mut text = String::from_str("_ic_kit_canister_");
    text.append(entry_point.name());
    text.append("_");
    text.append(name);
    text
}

/// The name under which the canister exports the wrapper.
pub fn export_name(entry_point: EntryPoint, name: &str, configured: &Option<String>) -> (text:
    String)
    ensures
        text@ == spec_export_name(entry_point, name@, option_view(*configured)),
{
    let mut text = String::from_str("canister_");
    text.append(entry_point.name());
    if !entry_point.is_lifecycle() {
        text.append(" ");
        match configured {
            Some(configured) => text.append(configured.as_str()),
            None => text.append(name),
        }
    }
    text
}

/// Chooses how the wrapper sends the handler's result back.
pub fn reply_code(entry_point: EntryPoint, return_length: usize) -> (code: ReplyCode)
    ensures
        code == spec_reply_code(entry_point, return_length),
{
    if entry_point.is_inspect_message() {
        ReplyCode::AcceptIfTrue
    } else if entry_point.is_lifecycle() {
        ReplyCode::Nothing
    } else if return_length == 0 {
        ReplyCode::EmptyReply
    } else if return_length == 1 {
        ReplyCode::EncodeOne
    } else {
        ReplyCode::EncodeArgs
    }
}

fn digit(d: usize) -> (text: &'static str)
    requires
        d < 10,
    ensures
        text@ == spec_digit(d as nat),
{
    if d == 0 {
        "0"
    } else if d == 1 {
        "1"
    } else if d == 2 {
        "2"
    } else if d == 3 {
        "3"
    } else if d == 4 {
        "4"
    } else if d == 5 {
        "5"
    } else if d == 6 {
        "6"
    } else if d == 7 {
        "7"
    } else if d == 8 {
        "8"
    } else {
        "9"
    }
}

/// Writes a number in decimal digits.
pub fn decimal(n: usize) -> (text: String)
    ensures
        text@ == spec_decimal(n as nat),
    decreases n,
{
    if n < 10 {
        String::from_str(digit(n))
    } else {
        let mut text = decimal(n / 10);
        text.append(digit(n % 10));
        text
    }
}

/// The names that the wrapper binds the decoded arguments to: a parameter's
/// own identifier where it has one, else `arg_` and the parameter's index.
/// A function that takes `self` is refused at its first such parameter.
pub fn collect_args(entry_point: EntryPoint, inputs: &Vec<Param>) -> (r: Result<
    Vec<String>,
    EntryError,
>)
    ensures
        match r {
            Ok(args) => {
                &&& no_receiver(inputs@)
                &&& args@.len() == inputs@.len()
                &&& forall|i: int|
                    0 <= i < args@.len() ==> (#[trigger] args@[i])@ == spec_arg_name(
                        inputs@[i],
                        i as nat,
                    )
            },
            Err(e) => {
                &&& e.place matches ErrorPlace::Input(i)
                &&& is_first_receiver(inputs@, i as int)
                &&& e.message@ == receiver_message(entry_point)
            },
        },
{
    let mut args: Vec<String> = Vec::new();
    let mut id: usize = 0;
    while id < inputs.len()
        invariant
            id <= inputs@.len(),
            forall|i: int| 0 <= i < id ==> !(#[trigger] inputs@[i] is Receiver),
            args@.len() == id,
            forall|i: int|
                0 <= i < id ==> (#[trigger] args@[i])@ == spec_arg_name(inputs@[i], i as nat),
        decreases inputs@.len() - id,
    {
        let ident = match &inputs[id] {
            Param::Receiver => {
                return Err(
                    at(
                        ErrorPlace::Input(id),
                        entry_point,
                        " macro can not be used on a function with `self` as a parameter.",
                    ),
                );
            },
            Param::Named(name) => name.clone(),
            Param::Pattern => {
                let mut name = String::from_str("arg_");
                let index = decimal(id);
                name.append(index.as_str());
                name
            },
        };
        args.push(ident);
        id = id + 1;
    }
    Ok(args)
}

/// What a successful generation gives for this function, kind and attribute.
pub open spec fn generated(
    entry_point: EntryPoint,
    signature: Signature,
    config: Config,
    code: EntryCode,
) -> bool {
    &&& code.outer_function@ == spec_outer_function(entry_point, signature.name@)
    &&& code.export_name@ == spec_export_name(
        entry_point,
        signature.name@,
        option_view(config.name),
    )
    &&& option_view(code.guard) == option_view(config.guard)
    &&& code.args@.len() == signature.inputs@.len()
    &&& forall|i: int|
        0 <= i < code.args@.len() ==> (#[trigger] code.args@[i])@ == spec_arg_name(
            signature.inputs@[i],
            i as nat,
        )
    &&& code.reply == spec_reply_code(entry_point, signature.output.spec_len())
    &&& code.spawn == signature.is_async
}

/// The error that stops the generation: a broken rule of shape first, then
/// the first `self` parameter.
pub open spec fn refused(entry_point: EntryPoint, signature: Signature, e: EntryError) -> bool {
    match spec_check_shape(
        entry_point,
        signature.generic_params,
        signature.output.spec_len(),
        signature.is_async,
    ) {
        Some(error) => error == (e.place, e.message@),
        None => {
            &&& e.place matches ErrorPlace::Input(i)
            &&& is_first_receiver(signature.inputs@, i as int)
            &&& e.message@ == receiver_message(entry_point)
        },
    }
}

/// Nothing stops the generation.
pub open spec fn accepted(entry_point: EntryPoint, signature: Signature) -> bool {
    &&& spec_check_shape(
        entry_point,
        signature.generic_params,
        signature.output.spec_len(),
        signature.is_async,
    ) is None
    &&& no_receiver(signature.inputs@)
}

/// Decides what is generated around a handler function: checks the
/// function's shape, then names the wrapper, the export and the arguments,
/// and chooses how the result is sent back.
pub fn plan_entry_point(entry_point: EntryPoint, signature: &Signature, config: &Config) -> (r:
    Result<EntryCode, EntryError>)
    ensures
        match r {
            Ok(code) => accepted(entry_point, *signature) && generated(
                entry_point,
                *signature,
                *config,
                code,
            ),
            Err(e) => !accepted(entry_point, *signature) && refused(entry_point, *signature, e),
        },
{
    let return_length = signature.output.len();
    match check_shape(entry_point, signature.generic_params, return_length, signature.is_async) {
        Err(e) => {
            return Err(e);
        },
        Ok(_) => {},
    }
    let outer_function = outer_function_name(entry_point, signature.name.as_str());
    let guard = match &config.guard {
        Some(guard) => Some(guard.clone()),
        None => None,
    };
    let export_name = export_name(entry_point, signature.name.as_str(), &config.name);
    let args = match collect_args(entry_point, &signature.inputs) {
        Err(e) => {
            return Err(e);
        },
        Ok(args) => args,
    };
    Ok(
        EntryCode {
            outer_function,
            export_name,
            guard,
            args,
            reply: reply_code(entry_point, return_length),
            spawn: signature.is_async,
        },
    )
}

} // verus!
