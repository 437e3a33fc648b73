//! The host runtime's types, carried through the entry points without being
//! read.

use vstd::prelude::*;

verus! {

/// The contract's storage, with the host's address validator and querier, as the
/// host lends them for one call: a `cosmwasm_std::DepsMut`. Nothing of it is
/// visible to the verifier; what the storage holds is spoken of through
/// [`stored`].
#[verifier::external_body]
pub struct Host<'a> {
    pub deps: cosmwasm_std::DepsMut<'a>,
}

/// The records that the storage holds, each under its key.
pub uninterp spec fn stored(host: Host<'_>) -> Map<Seq<u8>, Seq<u8>>;

/// The same three for a call that only reads: a `cosmwasm_std::Deps`, which the
/// host lends without the right to write. Nothing of it is visible to the
/// verifier.
#[verifier::external_body]
pub struct HostView<'a> {
    pub deps: cosmwasm_std::Deps<'a>,
}

/// The custom-message type of a chain without custom messages.
#[verifier::external_type_specification]
#[verifier::external_body]
pub struct HostEmpty(cosmwasm_std::Empty);

/// Block and contract information of the current call.
#[verifier::external_type_specification]
#[verifier::external_body]
pub struct HostEnv(cosmwasm_std::Env);

/// The caller and the funds sent along.
#[verifier::external_type_specification]
#[verifier::external_body]
pub struct HostMessageInfo(cosmwasm_std::MessageInfo);

/// What a handler hands back to the host on success.
#[verifier::external_type_specification]
#[verifier::external_body]
#[verifier::reject_recursive_types(T)]
pub struct HostResponse<T>(cosmwasm_std::Response<T>);

/// A message that a response asks the host to send.
#[verifier::external_type_specification]
#[verifier::external_body]
#[verifier::reject_recursive_types(T)]
pub struct HostSubMsg<T>(cosmwasm_std::SubMsg<T>);

/// An event that a response asks the host to emit.
#[verifier::external_type_specification]
#[verifier::external_body]
pub struct HostEvent(cosmwasm_std::Event);

/// The host's error type.
#[verifier::external_type_specification]
#[verifier::external_body]
pub struct HostStdError(cosmwasm_std::StdError);

/// A byte string as the host encodes it.
#[verifier::external_type_specification]
#[verifier::external_body]
pub struct HostBinary(cosmwasm_std::Binary);

/// An account's address.
#[verifier::external_type_specification]
#[verifier::external_body]
pub struct HostAddr(cosmwasm_std::Addr);

/// The text of an optional string.
pub open spec fn opt_text(o: Option<String>) -> Option<Seq<char>> {
    match o {
        Some(s) => Some(s@),
        None => None,
    }
}

} // verus!
