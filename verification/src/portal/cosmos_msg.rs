//! The platform's message for creating an actor at a predictable address.

use vstd::prelude::*;

verus! {

/// Creates an actor whose address follows from the creator, the code and the salt.
#[derive(Clone, Debug, PartialEq, Eq)]
pub struct MsgInstantiateContract2 {
    /// The actor that signs the message.
    pub sender: String,
    /// The address that may migrate the new actor.
    pub admin: String,
    /// The stored code that the new actor runs.
    pub code_id: u64,
    /// A label kept with the new actor.
    pub label: String,
    /// The JSON text handed to the new actor on creation.
    pub msg: Vec<u8>,
    /// The coins handed to the new actor on creation.
    pub funds: Vec<CosmosCoin>,
    /// One to sixty-four bytes that, with sender and code, fix the address.
    pub salt: Vec<u8>,
    /// Whether `msg` enters into the address as well.
    pub fix_msg: bool,
}

/// An amount of a native denomination, the amount written in decimal.
#[derive(Clone, Debug, PartialEq, Eq)]
pub struct CosmosCoin {
    pub denom: String,
    pub amount: String,
}

/// What a `CosmosCoin` holds.
#[verifier::ext_equal]
pub struct CosmosCoinView {
    pub denom: Seq<char>,
    pub amount: Seq<char>,
}

/// What a `MsgInstantiateContract2` holds.
#[verifier::ext_equal]
pub struct MsgInstantiateContract2View {
    pub sender: Seq<char>,
    pub admin: Seq<char>,
    pub code_id: u64,
    pub label: Seq<char>,
    pub msg: Seq<u8>,
    pub funds: Seq<CosmosCoinView>,
    pub salt: Seq<u8>,
    pub fix_msg: bool,
}

impl View for CosmosCoin {
    type V = CosmosCoinView;

    open spec fn view(&self) -> CosmosCoinView {
        CosmosCoinView { denom: self.denom@, amount: self.amount@ }
    }
}

impl View for MsgInstantiateContract2 {
    type V = MsgInstantiateContract2View;

    open spec fn view(&self) -> MsgInstantiateContract2View {
        MsgInstantiateContract2View {
            sender: self.sender@,
            admin: self.admin@,
            code_id: self.code_id,
            label: self.label@,
            msg: self.msg@,
            funds: self.funds@.map_values(|coin: CosmosCoin| coin@),
            salt: self.salt@,
            fix_msg: self.fix_msg,
        }
    }
}

} // verus!
