//! The decisions taken when an SDK configuration is derived from the loaded
//! defaults: the application name, which carries this library's user agent,
//! and the region.
use aws_config::{AppName, InvalidAppName};
use vstd::prelude::*;
use vstd::string::StringExecFns;

verus! {

#[verifier::external_type_specification]
#[verifier::external_body]
pub struct ExAppName(aws_config::AppName);

#[verifier::external_type_specification]
#[verifier::external_body]
pub struct ExInvalidAppName(aws_config::InvalidAppName);

/// The user agent of this library.
pub open spec fn mpl_user_agent() -> Seq<char> {
    "AwsCryptographicMPL-C++-1.11.1"@
}

/// A character that an application name may hold: an ASCII letter or digit,
/// or one of ! # $ % & ' * + - . ^ _ ` | ~.
pub open spec fn app_name_char(c: char) -> bool {
    let n = c as u32;
    ||| 0x30 <= n <= 0x39
    ||| 0x41 <= n <= 0x5a
    ||| 0x61 <= n <= 0x7a
    ||| c == '!' || c == '#' || c == '$' || c == '%' || c == '&' || c == '\''
    ||| c == '*' || c == '+' || c == '-' || c == '.' || c == '^' || c == '_'
    ||| c == '`' || c == '|' || c == '~'
}

/// A name that `AppName::new` accepts: not empty, and made only of the
/// characters above.
pub open spec fn valid_app_name(name: Seq<char>) -> bool {
    &&& name.len() > 0
    &&& forall|i: int| 0 <= i < name.len() ==> #[trigger] app_name_char(name[i])
}

/// The application name that `AppName::new` makes of a text it accepts.
pub uninterp spec fn app_name_of(text: Seq<char>) -> AppName;

/// `AppName::new`: accepts exactly the valid names, and the name it gives
/// depends on the text alone.
#[verifier::external_body]
fn new_app_name(name: String) -> (r: Result<AppName, InvalidAppName>)
    ensures
        r is Ok <==> valid_app_name(name@),
        r matches Ok(a) ==> a == app_name_of(name@),
{
    AppName::new(name)
}

/// The application name derived from the one already configured: this
/// library's user agent alone, or else the configured name, a space, the user
/// agent and a trailing space.
pub open spec fn composed_app_name(current: Seq<char>) -> Seq<char> {
    if current.len() == 0 {
        mpl_user_agent()
    } else {
        current + " "@ + mpl_user_agent() + " "@
    }
}

/// Appends this library's user agent to the configured application name.
pub fn app_name_with_user_agent(current_app_name: &str) -> (name: String)
    ensures
        name@ == composed_app_name(current_app_name@),
{
    let user_agent = "AwsCryptographicMPL-C++-1.11.1";
    if current_app_name.is_empty() {
        user_agent.to_owned()
    } else {
        let mut name = current_app_name.to_owned();
        name.append(" ");
        name.append(user_agent);
        name.append(" ");
        name
    }
}

/// The application name for an SDK configuration, `None` when the derived
/// name is not one the SDK accepts.
pub fn sdk_app_name(current_app_name: &str) -> (name: Option<AppName>)
    ensures
        name is Some <==> valid_app_name(composed_app_name(current_app_name@)),
        name matches Some(a) ==> a == app_name_of(composed_app_name(current_app_name@)),
{
    match new_app_name(app_name_with_user_agent(current_app_name)) {
        Ok(name) => Some(name),
        Err(_) => None,
    }
}

/// The derived application name is accepted exactly when no name was
/// configured before: a configured name puts a space into the derived one.
pub proof fn lemma_app_name_accepted_iff_none_configured(current: Seq<char>)
    ensures
        valid_app_name(composed_app_name(current)) <==> current.len() == 0,
{
    reveal_strlit("AwsCryptographicMPL-C++-1.11.1");
    reveal_strlit(" ");
    let agent = mpl_user_agent();
    if current.len() == 0 {
        assert forall|i: int| 0 <= i < agent.len() implies #[trigger] app_name_char(agent[i]) by {
        }
    } else {
        let name = composed_app_name(current);
        assert(name[current.len() as int] == ' ');
        assert(!app_name_char(' '));
    }
}

/// The region to set: the configured one when it is not empty.
pub fn region_override(region: &String) -> (r: Option<String>)
    ensures
        region@.len() == 0 ==> r is None,
        region@.len() > 0 ==> (r matches Some(s) && s@ == region@),
{
    if region.as_str().is_empty() {
        None
    } else {
        Some(region.as_str().to_owned())
    }
}

} // verus!
