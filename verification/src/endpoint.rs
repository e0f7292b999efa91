//! Channel endpoints and the class-identifier prefixes derived from them.

use vstd::prelude::*;
use vstd::string::StringExecFns;

verus! {

/// One end of a channel: the port a module is bound to and the channel's identifier.
#[derive(Clone, Debug, PartialEq, Eq)]
pub struct IbcEndpoint {
    /// The port that the module is bound to.
    pub port_id: String,
    /// The channel's identifier on this end.
    pub channel_id: String,
}

/// The prefix `<port>/<channel>/` as a sequence of characters.
pub open spec fn endpoint_prefix(port_id: Seq<char>, channel_id: Seq<char>) -> Seq<char> {
    port_id + seq!['/'] + channel_id + seq!['/']
}

impl IbcEndpoint {
    /// The class-identifier prefix this endpoint stands for.
    pub open spec fn prefix(&self) -> Seq<char> {
        endpoint_prefix(self.port_id@, self.channel_id@)
    }
}

/// Gets the class-identifier prefix for a given endpoint.
pub fn get_endpoint_prefix(source: &IbcEndpoint) -> (prefix: String)
    ensures
        prefix@ == source.prefix(),
{
    proof {
        reveal_strlit("/");
    }
    let mut prefix = source.port_id.clone();
    prefix.append("/");
    prefix.append(source.channel_id.as_str());
    prefix.append("/");
    assert("/"@ =~= seq!['/']);
    prefix
}

/// What is left of `class_id` once `prefix` is taken from its front, if it starts with it.
pub open spec fn pop_prefix(prefix: Seq<char>, class_id: Seq<char>) -> Option<Seq<char>> {
    if prefix.is_prefix_of(class_id) {
        Some(class_id.skip(prefix.len() as int))
    } else {
        None
    }
}

/// Calls `str::strip_prefix`: when `text` starts with `prefix` the result is the
/// rest of `text` behind it, and otherwise there is none.
#[verifier::external_body]
fn strip_prefix<'a>(text: &'a str, prefix: &str) -> (rest: Option<&'a str>)
    ensures
        rest is Some == prefix@.is_prefix_of(text@),
        rest matches Some(suffix) ==> suffix@ == text@.skip(prefix@.len() as int),
{
    text.strip_prefix(prefix)
}

/// Tries to remove the source prefix from a given class identifier. If the
/// identifier does not begin with the prefix of `source`, returns `None`.
/// Otherwise, returns `Some(unprefixed)`. Every string is accepted.
pub fn try_pop_source_prefix<'a>(source: &IbcEndpoint, class_id: &'a str) -> (unprefixed: Option<
    &'a str,
>)
    ensures
        unprefixed.deep_view() == pop_prefix(source.prefix(), class_id@),
{
    let source_prefix = get_endpoint_prefix(source);
    strip_prefix(class_id, source_prefix.as_str())
}

/// A class identifier made of an endpoint's prefix and any string gives that
/// string back when the prefix is popped.
pub proof fn lemma_pop_after_push(port_id: Seq<char>, channel_id: Seq<char>, suffix: Seq<char>)
    ensures
        pop_prefix(endpoint_prefix(port_id, channel_id), endpoint_prefix(port_id, channel_id) + suffix)
            == Some(suffix),
{
    let prefix = endpoint_prefix(port_id, channel_id);
    assert((prefix + suffix).subrange(0, prefix.len() as int) =~= prefix);
    assert((prefix + suffix).skip(prefix.len() as int) =~= suffix);
}

/// Popping succeeds only on identifiers that start with the endpoint's prefix,
/// and what it returns is the identifier without that prefix.
pub proof fn lemma_pop_needs_prefix(port_id: Seq<char>, channel_id: Seq<char>, class_id: Seq<char>)
    ensures
        !endpoint_prefix(port_id, channel_id).is_prefix_of(class_id) ==> pop_prefix(
            endpoint_prefix(port_id, channel_id),
            class_id,
        ) is None,
        pop_prefix(endpoint_prefix(port_id, channel_id), class_id) matches Some(suffix)
            ==> class_id == endpoint_prefix(port_id, channel_id) + suffix,
        class_id.len() < port_id.len() + channel_id.len() + 2 ==> pop_prefix(
            endpoint_prefix(port_id, channel_id),
            class_id,
        ) is None,
{
    let prefix = endpoint_prefix(port_id, channel_id);
    if prefix.is_prefix_of(class_id) {
        assert(class_id =~= prefix + class_id.skip(prefix.len() as int));
    }
}

} // verus!
