//! What may be shown of session options.
use vstd::prelude::*;

use crate::options;
use crate::options::{IcebergOptions, OptionsView, SensitiveString};
use crate::string_map::StringMap;
use crate::text;

verus! {

/// What formatting a text with `{:?}` makes of it.
pub uninterp spec fn quoted(text: Seq<char>) -> Seq<char>;

/// `format!` with `{:?}` of a `str`: the text in quotes, with escapes where it
/// needs them, which depends on the text alone.
#[verifier::external_body]
fn quote(text: &str) -> (res: String)
    ensures
        res@ == quoted(text@),
{
    format!("{:?}", text)
}

/// The members of a set in ascending order.
pub open spec fn sorted(members: Set<Seq<char>>) -> Seq<Seq<char>> {
    choose|list: Seq<Seq<char>>| text::ascending(list) && #[trigger] list.to_set() == members
}

/// An ascending list of the members is the members in ascending order.
proof fn lemma_sorted(list: Seq<Seq<char>>, members: Set<Seq<char>>)
    requires
        text::ascending(list),
        list.to_set() == members,
    ensures
        sorted(members) == list,
{
    text::lemma_ascending_unique(sorted(members), list);
}

/// Entries in braces.
pub open spec fn braced(entries: Seq<Seq<char>>) -> Seq<char> {
    "{"@ + text::joined(entries, ", "@) + "}"@
}

/// What is shown of a property.
pub open spec fn property_text(key: Seq<char>, value: Seq<char>) -> Seq<char> {
    quoted(key) + ": "@ + quoted(value)
}

/// What is shown of a credential: what it is for.
pub open spec fn credential_text(key: Seq<char>) -> Seq<char> {
    quoted(key) + ": "@ + "[REDACTED]"@
}

/// What is shown of the identity.
pub open spec fn identity_text(identity: Option<Seq<char>>) -> Seq<char> {
    match identity {
        Some(identity) => "Some("@ + quoted(identity) + ")"@,
        None => "None"@,
    }
}

/// Options put together of the texts of their parts.
pub open spec fn framed(
    identity: Seq<char>,
    properties: Seq<Seq<char>>,
    credentials: Seq<Seq<char>>,
) -> Seq<char> {
    "IcebergOptions { identity: "@ + identity + ", properties: "@ + braced(properties)
        + ", credentials: "@ + braced(credentials) + " }"@
}

/// What is shown of the properties, in ascending order of their keys.
pub open spec fn property_texts(properties: Map<Seq<char>, Seq<char>>) -> Seq<Seq<char>> {
    sorted(properties.dom()).map_values(|key: Seq<char>| property_text(key, properties[key]))
}

/// What is shown of credentials for these purposes.
pub open spec fn credential_texts(keys: Set<Seq<char>>) -> Seq<Seq<char>> {
    sorted(keys).map_values(|key: Seq<char>| credential_text(key))
}

/// What is shown of options.
pub open spec fn debug_text(options: OptionsView) -> Seq<char> {
    framed(
        identity_text(options.identity),
        property_texts(options.properties),
        credential_texts(options.credentials.dom()),
    )
}

/// What is shown of options does not depend on any secret: options that differ
/// in the values of credentials alone are shown alike.
pub proof fn law_credentials_not_shown(a: OptionsView, b: OptionsView)
    requires
        a.identity == b.identity,
        a.properties == b.properties,
        a.credentials.dom() == b.credentials.dom(),
    ensures
        debug_text(a) == debug_text(b),
{
}

/// Puts options together of the texts of their parts.
pub fn frame_options(identity: &str, properties: &Vec<String>, credentials: &Vec<String>) -> (res:
    String)
    ensures
        res@ == framed(identity@, text::texts(properties@), text::texts(credentials@)),
{
    let properties: String = text::join(properties, ", ");
    let credentials: String = text::join(credentials, ", ");
    let properties: String = text::glue("{", properties.as_str(), "}");
    let credentials: String = text::glue("{", credentials.as_str(), "}");
    let mut res: String = "IcebergOptions { identity: ".to_string();
    res.append(identity);
    res.append(", properties: ");
    res.append(properties.as_str());
    res.append(", credentials: ");
    res.append(credentials.as_str());
    res.append(" }");
    res
}

/// The texts of the properties.
fn show_properties(properties: &StringMap<String>) -> (res: Vec<String>)
    ensures
        text::texts(res@) == property_texts(options::plain_values(properties@)),
{
    let keys: Vec<String> = properties.keys();
    let ghost all = property_texts(options::plain_values(properties@));
    proof {
        assert(options::plain_values(properties@).dom() =~= properties@.dom());
        lemma_sorted(text::texts(keys@), properties@.dom());
    }
    let mut res: Vec<String> = Vec::new();
    let mut i: usize = 0;
    while i < keys.len()
        invariant
            text::texts(keys@).to_set() == properties@.dom(),
            sorted(properties@.dom()) == text::texts(keys@),
            options::plain_values(properties@).dom() == properties@.dom(),
            all == property_texts(options::plain_values(properties@)),
            all.len() == keys@.len(),
            i <= keys.len(),
            text::texts(res@) =~= all.take(i as int),
        decreases keys.len() - i,
    {
        let key: &str = keys[i].as_str();
        proof {
            assert(text::texts(keys@)[i as int] == key@);
            assert(text::texts(keys@).to_set().contains(key@));
        }
        if let Some(value) = properties.get(key) {
            let key_text: String = quote(key);
            let value_text: String = quote(value.as_str());
            let entry: String = text::glue(key_text.as_str(), ": ", value_text.as_str());
            let ghost before = res@;
            res.push(entry);
            proof {
                assert(text::texts(res@) =~= text::texts(before).push(entry@));
                assert(all[i as int] == entry@);
            }
        }
        i = i + 1;
    }
    assert(all.take(all.len() as int) =~= all);
    res
}

/// The texts of the credentials.
fn show_credentials(credentials: &StringMap<SensitiveString>) -> (res: Vec<String>)
    ensures
        text::texts(res@) == credential_texts(credentials@.dom()),
{
    let keys: Vec<String> = credentials.keys();
    let ghost all = credential_texts(credentials@.dom());
    proof {
        lemma_sorted(text::texts(keys@), credentials@.dom());
    }
    let mut res: Vec<String> = Vec::new();
    let mut i: usize = 0;
    while i < keys.len()
        invariant
            text::texts(keys@).to_set() == credentials@.dom(),
            sorted(credentials@.dom()) == text::texts(keys@),
            all == credential_texts(credentials@.dom()),
            all.len() == keys@.len(),
            i <= keys.len(),
            text::texts(res@) =~= all.take(i as int),
        decreases keys.len() - i,
    {
        let key: &str = keys[i].as_str();
        proof {
            assert(text::texts(keys@)[i as int] == key@);
            assert(text::texts(keys@).to_set().contains(key@));
        }
        if let Some(value) = credentials.get(key) {
            let key_text: String = quote(key);
            let value_text: String = value.debug_string();
            let entry: String = text::glue(key_text.as_str(), ": ", value_text.as_str());
            let ghost before = res@;
            res.push(entry);
            proof {
                assert(text::texts(res@) =~= text::texts(before).push(entry@));
                assert(all[i as int] == entry@);
            }
        }
        i = i + 1;
    }
    assert(all.take(all.len() as int) =~= all);
    res
}

impl IcebergOptions {
    /// The options as a text to be logged: every credential by its key alone.
    pub fn debug_string(&self) -> (res: String)
        ensures
            res@ == debug_text(self@),
    {
        let identity: String = match &self.identity {
            Some(identity) => {
                let identity: String = quote(identity.as_str());
                text::glue("Some(", identity.as_str(), ")")
            },
            None => "None".to_string(),
        };
        let properties: Vec<String> = show_properties(&self.properties);
        let credentials: Vec<String> = show_credentials(&self.credentials);
        assert(self@.credentials.dom() =~= self.credentials@.dom());
        frame_options(identity.as_str(), &properties, &credentials)
    }
}

/// The members of a set in ascending order are all of them, each once, in that order.
pub proof fn law_sorted(list: Seq<Seq<char>>, members: Set<Seq<char>>)
    requires
        text::ascending(list),
        list.to_set() == members,
    ensures
        sorted(members) == list,
{
    lemma_sorted(list, members);
}

/// What is shown of options: the identity, then every property with its value, then
/// every credential by its key alone, in ascending order of the keys.
pub proof fn law_debug_text(
    options: OptionsView,
    properties: Seq<Seq<char>>,
    credentials: Seq<Seq<char>>,
)
    requires
        text::ascending(properties),
        properties.to_set() == options.properties.dom(),
        text::ascending(credentials),
        credentials.to_set() == options.credentials.dom(),
    ensures
        debug_text(options) == "IcebergOptions { identity: "@ + match options.identity {
            Some(identity) => "Some("@ + quoted(identity) + ")"@,
            None => "None"@,
        } + ", properties: "@ + ("{"@ + text::joined(
            Seq::new(
                properties.len(),
                |i: int|
                    quoted(properties[i]) + ": "@ + quoted(options.properties[properties[i]]),
            ),
            ", "@,
        ) + "}"@) + ", credentials: "@ + ("{"@ + text::joined(
            Seq::new(credentials.len(), |i: int| quoted(credentials[i]) + ": "@ + "[REDACTED]"@),
            ", "@,
        ) + "}"@) + " }"@,
{
    lemma_sorted(properties, options.properties.dom());
    lemma_sorted(credentials, options.credentials.dom());
    assert(property_texts(options.properties) =~= Seq::new(
        properties.len(),
        |i: int| quoted(properties[i]) + ": "@ + quoted(options.properties[properties[i]]),
    ));
    assert(credential_texts(options.credentials.dom()) =~= Seq::new(
        credentials.len(),
        |i: int| quoted(credentials[i]) + ": "@ + "[REDACTED]"@,
    ));
}

/// Parts are framed in their order, entries between braces and with commas between
/// them.
pub proof fn law_framed(
    identity: Seq<char>,
    properties: Seq<Seq<char>>,
    credentials: Seq<Seq<char>>,
)
    ensures
        framed(identity, properties, credentials) == "IcebergOptions { identity: "@ + identity
            + ", properties: "@ + ("{"@ + text::joined(properties, ", "@) + "}"@)
            + ", credentials: "@ + ("{"@ + text::joined(credentials, ", "@) + "}"@) + " }"@,
{
}

} // verus!
