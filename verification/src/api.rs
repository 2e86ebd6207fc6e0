//! Configuration variables (`CVar`s) and logging.
//!
//! The host keeps a store of named variables whose values are text, and
//! offers four calls: find a variable, update one, acquire the value of one,
//! and log a message. This module decides which of these calls an operation
//! of the plugin needs and what the host's answer means. It does not make the
//! calls: each function returns the call to make, as a [`HostCall`], or takes
//! the host's answer as an argument.

use crate::raw::Handle;
use crate::text::same_text;
use crate::ChunkWMError;
use std::marker::PhantomData;
use vstd::prelude::*;
use vstd::std_specs::convert::FromSpecImpl;
use vstd::string::StringExecFns;

verus! {

/// How something should be logged by the host.
#[derive(Debug, Clone, Copy, PartialEq, Eq, Structural)]
pub enum LogLevel {
    Debug,
    Warn,
    Error,
}

impl LogLevel {
    /// The number by which the host knows this level.
    pub open spec fn spec_code(self) -> u32 {
        match self {
            LogLevel::Debug => 0,
            LogLevel::Warn => 1,
            LogLevel::Error => 2,
        }
    }

    /// The number by which the host knows this level.
    pub fn code(self) -> (code: u32)
        ensures
            code == self.spec_code(),
    {
        match self {
            LogLevel::Debug => 0,
            LogLevel::Warn => 1,
            LogLevel::Error => 2,
        }
    }
}

/// A call that the host is asked to perform.
#[derive(Debug, Clone, PartialEq, Eq)]
pub enum HostCall {
    /// Ask whether a variable has been declared.
    Find { name: String },
    /// Give a variable a value, declaring it if need be.
    Update { name: String, value: String },
    /// Ask for the value of a variable.
    Acquire { name: String },
    /// Log a message, which ends in a newline.
    Log { level: LogLevel, message: String },
}

/// What a call to the host is, to a contract.
pub enum HostCallView {
    Find { name: Seq<char> },
    Update { name: Seq<char>, value: Seq<char> },
    Acquire { name: Seq<char> },
    Log { level: LogLevel, message: Seq<char> },
}

impl View for HostCall {
    type V = HostCallView;

    open spec fn view(&self) -> HostCallView {
        match *self {
            HostCall::Find { name } => HostCallView::Find { name: name@ },
            HostCall::Update { name, value } => HostCallView::Update { name: name@, value: value@ },
            HostCall::Acquire { name } => HostCallView::Acquire { name: name@ },
            HostCall::Log { level, message } => HostCallView::Log { level, message: message@ },
        }
    }
}

/// The call, if any.
pub open spec fn call_of(call: Option<HostCall>) -> Option<HostCallView> {
    match call {
        Some(call) => Some(call@),
        None => None,
    }
}

/// What creating a variable asks of the host: nothing where the variable
/// exists, else an update with the text of the value.
pub open spec fn creation(name: Seq<char>, text: Seq<char>, exists: bool) -> Option<HostCallView> {
    if exists {
        None
    } else {
        Some(HostCallView::Update { name, value: text })
    }
}

/// The host's store of configuration variables, as the bridge takes it to
/// behave: a variable has the value of the last update to it, and a variable
/// that was never updated does not exist.
pub struct Store {
    pub cvars: Map<Seq<char>, Seq<char>>,
}

impl Store {
    /// What the host answers to `Find`.
    pub open spec fn found(self, name: Seq<char>) -> bool {
        self.cvars.contains_key(name)
    }

    /// What the host answers to `Acquire`: the value, or nothing for a variable
    /// that does not exist.
    pub open spec fn acquired(self, name: Seq<char>) -> Option<Seq<char>> {
        if self.cvars.contains_key(name) {
            Some(self.cvars[name])
        } else {
            None
        }
    }

    /// The store after the host has performed a call.
    pub open spec fn after(self, call: HostCallView) -> Store {
        match call {
            HostCallView::Update { name, value } => Store { cvars: self.cvars.insert(name, value) },
            _ => self,
        }
    }

    /// The store after the host has performed a call, if there was one.
    pub open spec fn after_any(self, call: Option<HostCallView>) -> Store {
        match call {
            Some(call) => self.after(call),
            None => self,
        }
    }
}

/// A type of value that a configuration variable can hold. The host stores
/// text, so a value is rendered to text on its way to the host and parsed from
/// text on its way back.
pub trait CVarValue: Sized {
    /// The text that a value is rendered to.
    spec fn text(&self) -> Seq<char>;

    /// Whether a text is read as a value.
    spec fn denotes(text: Seq<char>, value: Self) -> bool;

    /// The text of a value is read as that value.
    proof fn lemma_round_trip(value: Self)
        ensures
            Self::denotes(value.text(), value),
    ;

    /// A text is not read as two values that render differently.
    proof fn lemma_one_reading(text: Seq<char>, a: Self, b: Self)
        requires
            Self::denotes(text, a),
            Self::denotes(text, b),
        ensures
            a.text() == b.text(),
    ;

    /// Renders the value to text.
    fn render(&self) -> (text: String)
        ensures
            text@ == self.text(),
    ;

    /// Parses a text. `None` means that the text is read as no value.
    fn parse(text: &str) -> (value: Option<Self>)
        ensures
            match value {
                Some(value) => Self::denotes(text@, value),
                None => forall|value: Self| !Self::denotes(text@, value),
            },
    ;
}

impl CVarValue for String {
    open spec fn text(&self) -> Seq<char> {
        self@
    }

    open spec fn denotes(text: Seq<char>, value: String) -> bool {
        value@ == text
    }

    proof fn lemma_round_trip(value: String) {
    }

    proof fn lemma_one_reading(text: Seq<char>, a: String, b: String) {
    }

    fn render(&self) -> (text: String) {
        self.clone()
    }

    fn parse(text: &str) -> (value: Option<String>) {
        Some(text.to_owned())
    }
}

/// A boolean that the host stores as the digit `0` (false) or `1` (true).
#[derive(Debug, Clone, Copy, PartialEq, Eq, Structural)]
pub struct NumericBool {
    pub value: bool,
}

/// What `NumericBool::from_str` answers to any text but `0` and `1`.
pub const NOT_A_NUMERIC_BOOL: &'static str = "could not convert string to NumericBool";

impl NumericBool {
    /// The digit that the value is stored as.
    pub open spec fn digit(self) -> u8 {
        if self.value {
            1
        } else {
            0
        }
    }

    /// The digit that the value is stored as: 1 for true, 0 for false.
    pub fn into(self) -> (digit: u8)
        ensures
            digit == self.digit(),
    {
        if self.value {
            1
        } else {
            0
        }
    }

    /// Reads `"0"` as false and `"1"` as true. Any other text is an error.
    pub fn from_str(s: &str) -> (parsed: Result<NumericBool, &'static str>)
        ensures
            parsed == if s@ == "0"@ {
                Ok(NumericBool { value: false })
            } else if s@ == "1"@ {
                Ok(NumericBool { value: true })
            } else {
                Err(NOT_A_NUMERIC_BOOL)
            },
    {
        if same_text(s, "0") {
            Ok(NumericBool::from(false))
        } else if same_text(s, "1") {
            Ok(NumericBool::from(true))
        } else {
            Err(NOT_A_NUMERIC_BOOL)
        }
    }

    /// The text that the value is stored as: `"1"` for true, `"0"` for false.
    pub fn to_string(&self) -> (text: String)
        ensures
            text@ == self.text(),
    {
        if self.value {
            "1".to_owned()
        } else {
            "0".to_owned()
        }
    }
}

impl From<bool> for NumericBool {
    fn from(v: bool) -> (numeric: NumericBool) {
        NumericBool { value: v }
    }
}

impl FromSpecImpl<bool> for NumericBool {
    open spec fn obeys_from_spec() -> bool {
        true
    }

    open spec fn from_spec(v: bool) -> NumericBool {
        NumericBool { value: v }
    }
}

impl<'a> From<&'a NumericBool> for u8 {
    fn from(v: &'a NumericBool) -> (digit: u8) {
        if v.value {
            1
        } else {
            0
        }
    }
}

impl<'a> FromSpecImpl<&'a NumericBool> for u8 {
    open spec fn obeys_from_spec() -> bool {
        true
    }

    open spec fn from_spec(v: &'a NumericBool) -> u8 {
        v.digit()
    }
}

impl CVarValue for NumericBool {
    open spec fn text(&self) -> Seq<char> {
        if self.value {
            "1"@
        } else {
            "0"@
        }
    }

    open spec fn denotes(text: Seq<char>, value: NumericBool) -> bool {
        text == value.text()
    }

    proof fn lemma_round_trip(value: NumericBool) {
    }

    proof fn lemma_one_reading(text: Seq<char>, a: NumericBool, b: NumericBool) {
    }

    fn render(&self) -> (text: String) {
        self.to_string()
    }

    fn parse(text: &str) -> (value: Option<NumericBool>) {
        match NumericBool::from_str(text) {
            Ok(value) => Some(value),
            Err(_) => None,
        }
    }
}

/// The digits `0` and `1` are different texts, and no other text is read as a
/// `NumericBool`.
pub proof fn law_numeric_bool_texts()
    ensures
        "0"@ != "1"@,
        "0"@ == seq!['0'],
        "1"@ == seq!['1'],
        forall|text: Seq<char>, value: NumericBool|
            NumericBool::denotes(text, value) <==> (text == seq!['1'] && value.value) || (text
                == seq!['0'] && !value.value),
{
    reveal_strlit("0");
    reveal_strlit("1");
    assert("0"@ =~= seq!['0']);
    assert("1"@ =~= seq!['1']);
    assert("0"@[0] != "1"@[0]);
}

/// What reading a variable fails with when its text is read as no value.
pub const COULD_NOT_PARSE: &'static str = "could not parse CVar";

/// What the value of a bound variable fails with when it cannot be had.
pub const COULD_NOT_GET: &'static str = "could not get CVar";

/// The text of the host's answer to `Acquire`, if it gave one.
pub open spec fn answer_of(reply: Option<&str>) -> Option<Seq<char>> {
    match reply {
        Some(text) => Some(text@),
        None => None,
    }
}

/// Whether a text is read as some value of a type.
pub open spec fn readable<T: CVarValue>(text: Seq<char>) -> bool {
    exists|value: T| T::denotes(text, value)
}

/// Whether reading the host's answer for the variable `name` as a value of a
/// type can give `value`: a text is read as a value that it denotes, a text
/// that denotes none gives `ParseError`, and no answer gives `CVarNotFound`.
pub open spec fn read_as<T: CVarValue>(
    name: &'static str,
    reply: Option<Seq<char>>,
    value: Result<T, ChunkWMError>,
) -> bool {
    match reply {
        Some(text) => match value {
            Ok(value) => T::denotes(text, value),
            Err(error) => error == ChunkWMError::ParseError(COULD_NOT_PARSE) && !readable::<T>(
                text,
            ),
        },
        None => value == Err::<T, ChunkWMError>(ChunkWMError::CVarNotFound(name)),
    }
}

/// The plugin's handle to the host's configuration interface: the table of
/// the host's functions, each as the reference the host gave. The bridge
/// carries the references and never calls through them.
#[derive(Debug, Clone, Copy, PartialEq, Eq, Structural)]
pub struct API {
    pub update_cvar: Handle,
    pub acquire_cvar: Handle,
    pub find_cvar: Handle,
    pub plugin_broadcast: Handle,
    pub log: Handle,
}

impl API {
    /// The call that asks whether a variable has been declared. The host's
    /// answer is the answer.
    pub fn cvar_exists(&self, name: &str) -> (call: HostCall)
        ensures
            call@ == (HostCallView::Find { name: name@ }),
    {
        HostCall::Find { name: name.to_owned() }
    }

    /// What creating a variable with a value asks of the host. `exists` is
    /// the host's answer to `cvar_exists` for the name. A variable that exists
    /// is left as it is: nothing is asked. Otherwise the host is asked to
    /// update the variable with the text of the value.
    pub fn create_cvar<V: CVarValue>(&self, name: &str, value: &V, exists: bool) -> (call: Option<
        HostCall,
    >)
        ensures
            call_of(call) == creation(name@, value.text(), exists),
    {
        if exists {
            None
        } else {
            Some(HostCall::Update { name: name.to_owned(), value: value.render() })
        }
    }

    /// The call that gives a variable a value, whether it exists or not.
    pub fn update_cvar<V: CVarValue>(&self, name: &str, value: &V) -> (call: HostCall)
        ensures
            call@ == (HostCallView::Update { name: name@, value: value.text() }),
    {
        HostCall::Update { name: name.to_owned(), value: value.render() }
    }

    /// The call that asks for the value of a variable. The host's answer goes
    /// to `get_cvar`.
    pub fn acquire_cvar(&self, name: &str) -> (call: HostCall)
        ensures
            call@ == (HostCallView::Acquire { name: name@ }),
    {
        HostCall::Acquire { name: name.to_owned() }
    }

    /// Reads the host's answer to `acquire_cvar` as a value of the requested
    /// type. No answer, here `None`, means that the host has no such variable:
    /// `CVarNotFound` with the name. A text that is read as no value of the
    /// type gives `ParseError`.
    pub fn get_cvar<T: CVarValue>(&self, name: &'static str, reply: Option<&str>) -> (value: Result<
        T,
        ChunkWMError,
    >)
        ensures
            read_as(name, answer_of(reply), value),
    {
        match reply {
            Some(text) => match T::parse(text) {
                Some(value) => Ok(value),
                None => Err(ChunkWMError::ParseError(COULD_NOT_PARSE)),
            },
            None => Err(ChunkWMError::CVarNotFound(name)),
        }
    }

    /// The call that logs a message at a level. A newline is added to the
    /// message.
    pub fn log(&self, level: LogLevel, message: &str) -> (call: HostCall)
        ensures
            call@ == (HostCallView::Log { level, message: message@ + "\n"@ }),
    {
        HostCall::Log { level, message: message.to_owned().concat("\n") }
    }
}

/// A handle to one configuration variable, bound to its name and to the type
/// of its value.
pub struct CVar<T: CVarValue> {
    /// The `CVar`'s name.
    pub name: &'static str,
    /// The host interface that the handle was made with.
    pub api: API,
    /// Binds the type of the value.
    pub value_marker: PhantomData<T>,
}

impl<T: CVarValue> CVar<T> {
    /// Binds a handle to a variable that exists. `probe` is the host's answer
    /// to `acquire_cvar` for the name. The handle is made if the answer is
    /// read as a value of the type; otherwise this fails with `CVarNotFound`
    /// and the name.
    pub fn new(name: &'static str, api: API, probe: Option<&str>) -> (bound: Result<
        CVar<T>,
        ChunkWMError,
    >)
        ensures
            match bound {
                Ok(cvar) => {
                    &&& cvar.name == name
                    &&& cvar.api == api
                    &&& probe matches Some(text) && readable::<T>(text@)
                },
                Err(error) => error == ChunkWMError::CVarNotFound(name) && (probe matches Some(text)
                    ==> !readable::<T>(text@)),
            },
    {
        let value: Result<T, ChunkWMError> = api.get_cvar(name, probe);
        assert(read_as(name, answer_of(probe), value));
        match value {
            Ok(value) => {
                assert(readable::<T>(probe->Some_0@)) by {
                    assert(T::denotes(probe->Some_0@, value));
                }
                Ok(CVar { name, api, value_marker: PhantomData })
            },
            Err(_) => Err(ChunkWMError::CVarNotFound(name)),
        }
    }

    /// Binds a handle to a variable and creates the variable with a value if
    /// it does not exist. `exists` is the host's answer to `cvar_exists` for
    /// the name. The second result is what `create_cvar` asks of the host.
    pub fn with_value(name: &'static str, value: &T, api: API, exists: bool) -> (bound: (
        CVar<T>,
        Option<HostCall>,
    ))
        ensures
            bound.0.name == name,
            bound.0.api == api,
            call_of(bound.1) == creation(name@, value.text(), exists),
    {
        let call = api.create_cvar(name, value, exists);
        (CVar { name, api, value_marker: PhantomData }, call)
    }

    /// The call that sets the value of the variable.
    pub fn set_value(&mut self, value: &T) -> (call: HostCall)
        ensures
            call@ == (HostCallView::Update { name: old(self).name@, value: value.text() }),
            *final(self) == *old(self),
    {
        self.api.update_cvar(self.name, value)
    }

    /// The call that asks for the value of the variable. The host's answer
    /// goes to `value`.
    pub fn acquire(&self) -> (call: HostCall)
        ensures
            call@ == (HostCallView::Acquire { name: self.name@ }),
    {
        self.api.acquire_cvar(self.name)
    }

    /// Reads the host's answer to `acquire` as the value of the variable. An
    /// answer that is missing or is read as no value of the type gives
    /// `ParseError`.
    pub fn value(&mut self, reply: Option<&str>) -> (value: Result<T, ChunkWMError>)
        ensures
            *final(self) == *old(self),
            match value {
                Ok(value) => reply matches Some(text) && T::denotes(text@, value),
                Err(error) => error == ChunkWMError::ParseError(COULD_NOT_GET) && (
                reply matches Some(text) ==> !readable::<T>(text@)),
            },
    {
        let value: Result<T, ChunkWMError> = self.api.get_cvar(self.name, reply);
        assert(read_as(self.name, answer_of(reply), value));
        match value {
            Ok(value) => Ok(value),
            Err(_) => Err(ChunkWMError::ParseError(COULD_NOT_GET)),
        }
    }
}

/// Creating a variable that does not exist and then getting it gives a value
/// with the text of the value it was created with.
pub proof fn law_create_then_get<V: CVarValue>(
    store: Store,
    name: &'static str,
    value: V,
    got: Result<V, ChunkWMError>,
)
    requires
        !store.found(name@),
        read_as(
            name,
            store.after_any(creation(name@, value.text(), store.found(name@))).acquired(name@),
            got,
        ),
    ensures
        got matches Ok(read) && read.text() == value.text(),
{
    let after = store.after_any(creation(name@, value.text(), store.found(name@)));
    assert(after.acquired(name@) == Some(value.text()));
    V::lemma_round_trip(value);
    assert(read_as(name, Some(value.text()), got));
    match got {
        Ok(read) => {
            V::lemma_one_reading(value.text(), value, read);
        },
        Err(_) => {
            assert(readable::<V>(value.text()));
        },
    }
}

/// Creating a variable that exists asks nothing of the host: the store, and
/// with it the value of the variable, stays as it was.
pub proof fn law_create_keeps_existing<V: CVarValue>(store: Store, name: Seq<char>, value: V)
    requires
        store.found(name),
    ensures
        creation(name, value.text(), store.found(name)) == None::<HostCallView>,
        store.after_any(creation(name, value.text(), store.found(name))) == store,
{
}

/// The last write wins: after two updates of a variable, getting it gives a
/// value with the text of the second.
pub proof fn law_last_write_wins<V: CVarValue>(
    store: Store,
    name: &'static str,
    first: V,
    second: V,
    got: Result<V, ChunkWMError>,
)
    requires
        read_as(
            name,
            store.after(HostCallView::Update { name: name@, value: first.text() }).after(
                HostCallView::Update { name: name@, value: second.text() },
            ).acquired(name@),
            got,
        ),
    ensures
        got matches Ok(read) && read.text() == second.text(),
{
    let after = store.after(HostCallView::Update { name: name@, value: first.text() }).after(
        HostCallView::Update { name: name@, value: second.text() },
    );
    assert(after.acquired(name@) == Some(second.text()));
    V::lemma_round_trip(second);
    assert(read_as(name, Some(second.text()), got));
    match got {
        Ok(read) => {
            V::lemma_one_reading(second.text(), second, read);
        },
        Err(_) => {
            assert(readable::<V>(second.text()));
        },
    }
}

} // verus!
