//! The platform as the two actors see it: who calls, what is attached, which
//! instructions an execution hands back, and what a continuation reports.

use crate::portal::cosmos_msg::{MsgInstantiateContract2, MsgInstantiateContract2View};
use crate::text::same_text;
use vstd::prelude::*;
use vstd::string::*;

verus! {

/// The views of the items of `items`, in order.
pub open spec fn views<T: View>(items: Seq<T>) -> Seq<T::V> {
    items.map_values(|item: T| item@)
}

/// An amount of a native denomination.
#[derive(Clone, Debug, PartialEq, Eq)]
pub struct Coin {
    pub denom: String,
    pub amount: u128,
}

/// What a `Coin` holds.
#[verifier::ext_equal]
pub struct CoinView {
    pub denom: Seq<char>,
    pub amount: nat,
}

impl View for Coin {
    type V = CoinView;

    open spec fn view(&self) -> CoinView {
        CoinView { denom: self.denom@, amount: self.amount as nat }
    }
}

/// A key with its value, as executions and receipts report them.
#[derive(Clone, Debug, PartialEq, Eq)]
pub struct Attribute {
    pub key: String,
    pub value: String,
}

/// What an `Attribute` holds.
#[verifier::ext_equal]
pub struct AttributeView {
    pub key: Seq<char>,
    pub value: Seq<char>,
}

impl View for Attribute {
    type V = AttributeView;

    open spec fn view(&self) -> AttributeView {
        AttributeView { key: self.key@, value: self.value@ }
    }
}

/// A record that an actor emitted while it ran.
#[derive(Clone, Debug, PartialEq, Eq)]
pub struct Event {
    pub ty: String,
    pub attributes: Vec<Attribute>,
}

/// What an `Event` holds.
#[verifier::ext_equal]
pub struct EventView {
    pub ty: Seq<char>,
    pub attributes: Seq<AttributeView>,
}

impl View for Event {
    type V = EventView;

    open spec fn view(&self) -> EventView {
        EventView { ty: self.ty@, attributes: views(self.attributes@) }
    }
}

/// The actor that runs, by its address and by the canonical form of that address.
#[derive(Clone, Debug, PartialEq, Eq)]
pub struct Env {
    pub contract_address: String,
    pub contract_canonical: Vec<u8>,
}

/// What an `Env` holds.
#[verifier::ext_equal]
pub struct EnvView {
    pub contract_address: Seq<char>,
    pub contract_canonical: Seq<u8>,
}

impl View for Env {
    type V = EnvView;

    open spec fn view(&self) -> EnvView {
        EnvView {
            contract_address: self.contract_address@,
            contract_canonical: self.contract_canonical@,
        }
    }
}

/// The authenticated caller and the funds attached to the call.
#[derive(Clone, Debug, PartialEq, Eq)]
pub struct MessageInfo {
    pub sender: String,
    pub funds: Vec<Coin>,
}

/// What a `MessageInfo` holds.
#[verifier::ext_equal]
pub struct MessageInfoView {
    pub sender: Seq<char>,
    pub funds: Seq<CoinView>,
}

impl View for MessageInfo {
    type V = MessageInfoView;

    open spec fn view(&self) -> MessageInfoView {
        MessageInfoView { sender: self.sender@, funds: views(self.funds@) }
    }
}

impl Coin {
    /// A copy of the coin.
    pub fn copy(&self) -> (coin: Coin)
        ensures
            coin@ == self@,
    {
        Coin { denom: self.denom.clone(), amount: self.amount }
    }
}

/// An instruction that an execution hands to the platform.
#[derive(Clone, Debug, PartialEq, Eq)]
pub enum Message {
    /// A message that the platform routes by its type.
    Stargate { type_url: String, value: MsgInstantiateContract2 },
    /// Creates an actor at an address that the platform picks.
    Instantiate { admin: String, code_id: u64, msg: Vec<u8>, funds: Vec<Coin>, label: String },
    /// Calls an actor.
    Execute { contract_addr: String, msg: Vec<u8>, funds: Vec<Coin> },
    /// Delegates funds of the running actor to a validator.
    Delegate { validator: String, amount: Coin },
    /// Takes back part of the running actor's delegation to a validator.
    Undelegate { validator: String, amount: Coin },
    /// Names the address to which the running actor's rewards are paid.
    SetWithdrawAddress { address: String },
    /// Pays out the rewards that the running actor earned with a validator.
    WithdrawDelegatorReward { validator: String },
}

/// What a `Message` holds.
#[verifier::ext_equal]
pub enum MessageView {
    Stargate { type_url: Seq<char>, value: MsgInstantiateContract2View },
    Instantiate { admin: Seq<char>, code_id: u64, msg: Seq<u8>, funds: Seq<CoinView>, label: Seq<char> },
    Execute { contract_addr: Seq<char>, msg: Seq<u8>, funds: Seq<CoinView> },
    Delegate { validator: Seq<char>, amount: CoinView },
    Undelegate { validator: Seq<char>, amount: CoinView },
    SetWithdrawAddress { address: Seq<char> },
    WithdrawDelegatorReward { validator: Seq<char> },
}

impl View for Message {
    type V = MessageView;

    open spec fn view(&self) -> MessageView {
        match *self {
            Message::Stargate { type_url, value } => MessageView::Stargate {
                type_url: type_url@,
                value: value@,
            },
            Message::Instantiate { admin, code_id, msg, funds, label } => MessageView::Instantiate {
                admin: admin@,
                code_id,
                msg: msg@,
                funds: views(funds@),
                label: label@,
            },
            Message::Execute { contract_addr, msg, funds } => MessageView::Execute {
                contract_addr: contract_addr@,
                msg: msg@,
                funds: views(funds@),
            },
            Message::Delegate { validator, amount } => MessageView::Delegate {
                validator: validator@,
                amount: amount@,
            },
            Message::Undelegate { validator, amount } => MessageView::Undelegate {
                validator: validator@,
                amount: amount@,
            },
            Message::SetWithdrawAddress { address } => MessageView::SetWithdrawAddress {
                address: address@,
            },
            Message::WithdrawDelegatorReward { validator } => MessageView::WithdrawDelegatorReward {
                validator: validator@,
            },
        }
    }
}

/// An instruction, and the tag of the continuation that its success resumes.
#[derive(Clone, Debug, PartialEq, Eq)]
pub struct SubMsg {
    pub reply_id: Option<u64>,
    pub msg: Message,
}

/// What a `SubMsg` holds.
#[verifier::ext_equal]
pub struct SubMsgView {
    pub reply_id: Option<u64>,
    pub msg: MessageView,
}

impl View for SubMsg {
    type V = SubMsgView;

    open spec fn view(&self) -> SubMsgView {
        SubMsgView { reply_id: self.reply_id, msg: self.msg@ }
    }
}

/// What an execution hands back: instructions in the order in which the
/// platform is to carry them out, and attributes that describe the execution.
#[derive(Clone, Debug, PartialEq, Eq)]
pub struct Response {
    pub messages: Vec<SubMsg>,
    pub attributes: Vec<Attribute>,
}

/// What a `Response` holds.
#[verifier::ext_equal]
pub struct ResponseView {
    pub messages: Seq<SubMsgView>,
    pub attributes: Seq<AttributeView>,
}

impl View for Response {
    type V = ResponseView;

    open spec fn view(&self) -> ResponseView {
        ResponseView { messages: views(self.messages@), attributes: views(self.attributes@) }
    }
}

/// The instruction `msg` with no continuation.
pub open spec fn plain(msg: MessageView) -> SubMsgView {
    SubMsgView { reply_id: None, msg }
}

/// The instruction `msg` whose success resumes the continuation `id`.
pub open spec fn tagged(id: u64, msg: MessageView) -> SubMsgView {
    SubMsgView { reply_id: Some(id), msg }
}

/// The attribute `key` with `value`.
pub open spec fn attribute(key: Seq<char>, value: Seq<char>) -> AttributeView {
    AttributeView { key, value }
}

impl Response {
    /// The response with no instruction and no attribute.
    pub fn new() -> (response: Response)
        ensures
            response@ == (ResponseView { messages: Seq::empty(), attributes: Seq::empty() }),
    {
        let response = Response { messages: Vec::new(), attributes: Vec::new() };
        assert(response@.messages =~= Seq::empty());
        assert(response@.attributes =~= Seq::empty());
        response
    }

    /// Adds an instruction with no continuation after those already there.
    pub fn add_message(self, msg: Message) -> (response: Response)
        ensures
            response@ == (ResponseView {
                messages: self@.messages.push(plain(msg@)),
                attributes: self@.attributes,
            }),
    {
        let mut response = self;
        response.messages.push(SubMsg { reply_id: None, msg });
        assert(response@.messages =~= self@.messages.push(plain(msg@)));
        response
    }

    /// Adds an instruction whose success resumes the continuation `id`.
    pub fn add_submessage(self, id: u64, msg: Message) -> (response: Response)
        ensures
            response@ == (ResponseView {
                messages: self@.messages.push(tagged(id, msg@)),
                attributes: self@.attributes,
            }),
    {
        let mut response = self;
        response.messages.push(SubMsg { reply_id: Some(id), msg });
        assert(response@.messages =~= self@.messages.push(tagged(id, msg@)));
        response
    }

    /// Adds an attribute after those already there.
    pub fn add_attribute(self, key: &str, value: &str) -> (response: Response)
        ensures
            response@ == (ResponseView {
                messages: self@.messages,
                attributes: self@.attributes.push(attribute(key@, value@)),
            }),
    {
        let mut response = self;
        response.attributes.push(Attribute { key: key.to_owned(), value: value.to_owned() });
        assert(response@.attributes =~= self@.attributes.push(attribute(key@, value@)));
        response
    }
}

/// The value of the first attribute named `key` at or after `from`.
pub open spec fn attribute_value(
    attributes: Seq<AttributeView>,
    key: Seq<char>,
    from: int,
) -> Option<Seq<char>>
    decreases attributes.len() - from,
{
    if from >= attributes.len() {
        None
    } else if attributes[from].key == key {
        Some(attributes[from].value)
    } else {
        attribute_value(attributes, key, from + 1)
    }
}

/// The value that a receipt reports under `key` in a record of type `ty`: that
/// of the first such attribute of the first record, at or after `from`, that
/// has the type and the attribute.
pub open spec fn receipt_value(
    events: Seq<EventView>,
    ty: Seq<char>,
    key: Seq<char>,
    from: int,
) -> Option<Seq<char>>
    decreases events.len() - from,
{
    if from >= events.len() {
        None
    } else if events[from].ty == ty && attribute_value(events[from].attributes, key, 0) is Some {
        attribute_value(events[from].attributes, key, 0)
    } else {
        receipt_value(events, ty, key, from + 1)
    }
}

/// Looks an attribute up by its key.
pub fn find_attribute(attributes: &Vec<Attribute>, key: &str) -> (value: Option<String>)
    ensures
        value is Some <==> attribute_value(views(attributes@), key@, 0) is Some,
        value matches Some(v) ==> attribute_value(views(attributes@), key@, 0) == Some(v@),
{
    let mut at: usize = 0;
    while at < attributes.len()
        invariant
            at <= attributes.len(),
            attribute_value(views(attributes@), key@, 0) == attribute_value(
                views(attributes@),
                key@,
                at as int,
            ),
        decreases attributes.len() - at,
    {
        if same_text(attributes[at].key.as_str(), key) {
            return Some(attributes[at].value.clone());
        }
        at += 1;
    }
    None
}

/// Looks up what a receipt reports under `key` in a record of type `ty`.
pub fn find_in_receipt(events: &Vec<Event>, ty: &str, key: &str) -> (value: Option<String>)
    ensures
        value is Some <==> receipt_value(views(events@), ty@, key@, 0) is Some,
        value matches Some(v) ==> receipt_value(views(events@), ty@, key@, 0) == Some(v@),
{
    let mut at: usize = 0;
    while at < events.len()
        invariant
            at <= events.len(),
            receipt_value(views(events@), ty@, key@, 0) == receipt_value(
                views(events@),
                ty@,
                key@,
                at as int,
            ),
        decreases events.len() - at,
    {
        if same_text(events[at].ty.as_str(), ty) {
            match find_attribute(&events[at].attributes, key) {
                Some(value) => {
                    return Some(value);
                },
                None => {},
            }
        }
        at += 1;
    }
    None
}

/// The outcome of an instruction, handed to the continuation that it was
/// tagged with: the records that the called actor emitted, or why it failed.
#[derive(Debug, PartialEq, Eq)]
pub struct Reply {
    pub id: u64,
    pub result: Result<Vec<Event>, String>,
}

} // verus!
