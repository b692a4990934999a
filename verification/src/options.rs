//! Session options, and the catalog contexts made of them.
use std::sync::Arc;

use vstd::prelude::*;

use crate::string_map::StringMap;
use crate::text;

verus! {

/// A text that is not to be shown.
///
/// It has no `Debug` of its own: what may be shown of it is what
/// [`SensitiveString::debug_string`] gives.
#[derive(PartialEq, Eq)]
pub struct SensitiveString {
    secret: String,
}

impl View for SensitiveString {
    type V = Seq<char>;

    closed spec fn view(&self) -> Seq<char> {
        self.secret@
    }
}

impl SensitiveString {
    /// Keeps `secret` from being shown.
    pub fn from(secret: String) -> (res: Self)
        ensures
            res@ == secret@,
    {
        SensitiveString { secret }
    }

    /// The text itself, for the catalog that asks for it.
    pub fn expose(&self) -> (res: &str)
        ensures
            res@ == self@,
    {
        self.secret.as_str()
    }

    /// What may be shown in place of the text.
    pub fn debug_string(&self) -> (res: String)
        ensures
            res@ == "[REDACTED]"@,
    {
        "[REDACTED]".to_string()
    }
}

impl Clone for SensitiveString {
    fn clone(&self) -> (res: Self)
        ensures
            res@ == self@,
    {
        SensitiveString { secret: self.secret.clone() }
    }
}

/// A map of texts by what its values say.
pub open spec fn plain_values(map: Map<Seq<char>, String>) -> Map<Seq<char>, Seq<char>> {
    map.map_values(|value: String| value@)
}

/// A map of sensitive texts by what its values say.
pub open spec fn sensitive_values(map: Map<Seq<char>, SensitiveString>) -> Map<
    Seq<char>,
    Seq<char>,
> {
    map.map_values(|value: SensitiveString| value@)
}

/// Catalog options of a session of the query engine.
///
/// They are handed over by the program that sets the session up. They are no
/// settings of the engine's own, so that no statement of a query can set an
/// identity that nobody verified, and no credential is kept as a plain text.
pub struct IcebergOptions {
    /// Optional identity used when deriving the catalog context.
    pub identity: Option<String>,
    /// Non-sensitive properties propagated to the catalog context.
    pub properties: StringMap<String>,
    /// Sensitive credentials propagated to the catalog context.
    pub credentials: StringMap<SensitiveString>,
}

/// What [`IcebergOptions`] say.
#[verifier::ext_equal]
pub struct OptionsView {
    pub identity: Option<Seq<char>>,
    pub properties: Map<Seq<char>, Seq<char>>,
    pub credentials: Map<Seq<char>, Seq<char>>,
}

impl View for IcebergOptions {
    type V = OptionsView;

    open spec fn view(&self) -> OptionsView {
        OptionsView {
            identity: text::optional(self.identity),
            properties: plain_values(self.properties@),
            credentials: sensitive_values(self.credentials@),
        }
    }
}

/// Options that say nothing.
pub open spec fn no_options() -> OptionsView {
    OptionsView { identity: None, properties: Map::empty(), credentials: Map::empty() }
}

impl Default for IcebergOptions {
    fn default() -> (res: Self)
        ensures
            res@ == no_options(),
    {
        let res = IcebergOptions {
            identity: None,
            properties: StringMap::new(),
            credentials: StringMap::new(),
        };
        assert(res@ =~= no_options());
        res
    }
}

/// A copy of the properties.
fn copy_properties(map: &StringMap<String>) -> (res: StringMap<String>)
    ensures
        plain_values(res@) == plain_values(map@),
{
    let res: StringMap<String> = map.clone();
    assert(plain_values(res@) =~= plain_values(map@));
    res
}

/// A copy of the credentials.
fn copy_credentials(map: &StringMap<SensitiveString>) -> (res: StringMap<SensitiveString>)
    ensures
        sensitive_values(res@) == sensitive_values(map@),
{
    let res: StringMap<SensitiveString> = map.clone();
    assert(sensitive_values(res@) =~= sensitive_values(map@));
    res
}

impl Clone for IcebergOptions {
    fn clone(&self) -> (res: Self)
        ensures
            res@ == self@,
    {
        IcebergOptions {
            identity: self.identity.clone(),
            properties: copy_properties(&self.properties),
            credentials: copy_credentials(&self.credentials),
        }
    }
}

/// Who acts on a catalog, and with what.
pub struct SessionContext {
    session_id: String,
    identity: Option<String>,
    properties: StringMap<String>,
    credentials: StringMap<SensitiveString>,
}

/// What a [`SessionContext`] says.
#[verifier::ext_equal]
pub struct ContextView {
    /// The session's number.
    pub session_id: Seq<char>,
    /// Who acts, and with what.
    pub options: OptionsView,
}

impl View for SessionContext {
    type V = ContextView;

    closed spec fn view(&self) -> ContextView {
        ContextView {
            session_id: self.session_id@,
            options: OptionsView {
                identity: text::optional(self.identity),
                properties: plain_values(self.properties@),
                credentials: sensitive_values(self.credentials@),
            },
        }
    }
}

/// A hexadecimal digit in lower case.
pub open spec fn is_hex_digit(c: char) -> bool {
    ('0' <= c && c <= '9') || ('a' <= c && c <= 'f')
}

/// The text of a random universally unique identifier: five groups of
/// hexadecimal digits with hyphens between them, the third beginning with the
/// version, the fourth with the variant.
pub open spec fn is_random_uuid(text: Seq<char>) -> bool {
    &&& text.len() == 36
    &&& forall|i: int|
        0 <= i < 36 ==> if i == 8 || i == 13 || i == 18 || i == 23 {
            #[trigger] text[i] == '-'
        } else {
            is_hex_digit(text[i])
        }
    &&& text[14] == '4'
    &&& text[19] == '8' || text[19] == '9' || text[19] == 'a' || text[19] == 'b'
}

/// `uuid::Uuid::new_v4` and its `to_string`: the text of a new random
/// identifier. Which one is left to chance; that no two are the same is only
/// overwhelmingly likely and is not claimed. The call panics where the system
/// has no random numbers to give.
#[verifier::external_body]
fn fresh_session_id() -> (res: String)
    ensures
        is_random_uuid(res@),
{
    uuid::Uuid::new_v4().to_string()
}

impl SessionContext {
    /// An anonymous context with a session number of its own.
    pub fn empty() -> (res: Self)
        ensures
            res@.options == no_options(),
            is_random_uuid(res@.session_id),
    {
        let res = SessionContext {
            session_id: fresh_session_id(),
            identity: None,
            properties: StringMap::new(),
            credentials: StringMap::new(),
        };
        assert(res@.options =~= no_options());
        res
    }

    /// The session's number.
    pub fn session_id(&self) -> (res: &str)
        ensures
            res@ == self@.session_id,
    {
        self.session_id.as_str()
    }

    /// Who acts, where that is known.
    pub fn identity(&self) -> (res: Option<&str>)
        ensures
            match res {
                Some(identity) => self@.options.identity == Some(identity@),
                None => self@.options.identity is None,
            },
    {
        match &self.identity {
            Some(identity) => Some(identity.as_str()),
            None => None,
        }
    }

    /// The properties.
    pub fn properties(&self) -> (res: &StringMap<String>)
        ensures
            plain_values(res@) == self@.options.properties,
    {
        &self.properties
    }

    /// The credentials.
    pub fn credentials(&self) -> (res: &StringMap<SensitiveString>)
        ensures
            sensitive_values(res@) == self@.options.credentials,
    {
        &self.credentials
    }
}

/// Centralizes the mapping from [`IcebergOptions`] to a [`SessionContext`],
/// with `session_id` where there is one, else with a fresh number.
pub fn build_session_context(options: &IcebergOptions, session_id: Option<String>) -> (res:
    SessionContext)
    ensures
        res@.options == options@,
        match session_id {
            Some(session_id) => res@.session_id == session_id@,
            None => is_random_uuid(res@.session_id),
        },
{
    let session_id: String = match session_id {
        Some(session_id) => session_id,
        None => fresh_session_id(),
    };
    SessionContext {
        session_id,
        identity: options.identity.clone(),
        properties: copy_properties(&options.properties),
        credentials: copy_credentials(&options.credentials),
    }
}

impl IcebergOptions {
    /// Builds a fresh [`SessionContext`] from these options.
    ///
    /// Unlike the context that [`resolve_session_context`] gives, this one has a
    /// session number of its own each time. It is meant for bindings that belong
    /// to no session of the query engine, such as one for each query.
    pub fn to_session_context(&self) -> (res: SessionContext)
        ensures
            res@.options == self@,
            is_random_uuid(res@.session_id),
    {
        build_session_context(self, None)
    }
}

/// What is read of a session of the query engine.
pub struct Session {
    /// The session's number.
    pub session_id: String,
    /// The catalog options registered with it.
    pub options: Option<Arc<IcebergOptions>>,
}

/// What a [`Session`] says.
pub struct SessionView {
    pub session_id: Seq<char>,
    pub options: Option<OptionsView>,
}

impl View for Session {
    type V = SessionView;

    open spec fn view(&self) -> SessionView {
        SessionView {
            session_id: self.session_id@,
            options: match self.options {
                Some(options) => Some(options@),
                None => None,
            },
        }
    }
}

impl SessionView {
    /// The catalog context of the session, if it has one.
    pub open spec fn context(self) -> Option<ContextView> {
        match self.options {
            Some(options) => Some(ContextView { session_id: self.session_id, options }),
            None => None,
        }
    }
}

/// Derives a catalog context from a session of the query engine and the options
/// registered with it, if any are.
///
/// The context has the session's number. Bindings that belong to no session use
/// [`IcebergOptions::to_session_context`] instead.
pub fn resolve_session_context(session: &Session) -> (res: Option<SessionContext>)
    ensures
        match res {
            Some(context) => session@.context() == Some(context@),
            None => session@.context() is None,
        },
{
    match &session.options {
        Some(options) => Some(build_session_context(options, Some(session.session_id.clone()))),
        None => None,
    }
}

/// A map by what its values say has the same keys, each with what its value says.
pub proof fn law_values(
    properties: Map<Seq<char>, String>,
    credentials: Map<Seq<char>, SensitiveString>,
    key: Seq<char>,
)
    ensures
        plain_values(properties).dom() == properties.dom(),
        properties.contains_key(key) ==> plain_values(properties)[key] == properties[key]@,
        sensitive_values(credentials).dom() == credentials.dom(),
        credentials.contains_key(key) ==> sensitive_values(credentials)[key] == credentials[key]@,
{
    assert(plain_values(properties).dom() =~= properties.dom());
    assert(sensitive_values(credentials).dom() =~= credentials.dom());
}

/// Options say their identity, every property and every credential.
pub proof fn law_options_say_what_they_hold(options: IcebergOptions, key: Seq<char>)
    ensures
        match options.identity {
            Some(identity) => options@.identity == Some(identity@),
            None => options@.identity is None,
        },
        options@.properties.dom() == options.properties@.dom(),
        options.properties@.contains_key(key) ==> options@.properties[key]
            == options.properties@[key]@,
        options@.credentials.dom() == options.credentials@.dom(),
        options.credentials@.contains_key(key) ==> options@.credentials[key]
            == options.credentials@[key]@,
{
    law_values(options.properties@, options.credentials@, key);
}

/// Options that say nothing have no identity, no property and no credential.
pub proof fn law_no_options(key: Seq<char>)
    ensures
        no_options().identity is None,
        !no_options().properties.contains_key(key),
        !no_options().credentials.contains_key(key),
{
}

/// A session has a catalog context exactly if options are registered with it, if only
/// empty ones. The context has the session's number and says what the options say.
pub proof fn law_sessions_with_options_have_contexts(session: Session)
    ensures
        session@.context() is Some <==> session.options is Some,
        session.options matches Some(options) ==> {
            &&& session@.context()->Some_0.session_id == session.session_id@
            &&& session@.context()->Some_0.options == options@
        },
        session@.session_id == session.session_id@,
        session@.options is Some <==> session.options is Some,
        session.options matches Some(options) ==> session@.options == Some(options@),
{
}

/// A random identifier is written in five groups of hexadecimal digits in lower case,
/// with its version and its variant in their places.
pub proof fn law_random_uuid(text: Seq<char>, i: int)
    requires
        is_random_uuid(text),
        0 <= i < text.len(),
    ensures
        text.len() == 36,
        text[i] == '-' <==> i == 8 || i == 13 || i == 18 || i == 23,
        text[i] != '-' ==> ('0' <= text[i] && text[i] <= '9') || ('a' <= text[i] && text[i] <= 'f'),
        text[14] == '4',
        text[19] == '8' || text[19] == '9' || text[19] == 'a' || text[19] == 'b',
{
}

} // verus!
