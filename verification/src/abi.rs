//! Calls of the remote contract: the table of its functions and the encoding
//! of one call as bytes.

use crate::uint256::Uint256;
use ethabi::{ParamType, Token, Uint};
use std::str::FromStr;
use vstd::prelude::*;

verus! {

/// A 20-byte account address of the remote chain. Its view is its bytes.
#[derive(Clone, Copy, Debug, PartialEq, Eq)]
pub struct Address {
    pub(crate) bytes: [u8; 20],
}

impl View for Address {
    type V = Seq<u8>;

    closed spec fn view(&self) -> Seq<u8> {
        self.bytes@
    }
}

impl Address {
    /// The address with the given bytes.
    pub fn from_bytes(bytes: [u8; 20]) -> (address: Address)
        ensures
            address@ == bytes@,
    {
        Address { bytes }
    }

    /// The bytes of the address.
    pub fn to_bytes(&self) -> (bytes: [u8; 20])
        ensures
            bytes@ == self@,
    {
        self.bytes
    }

    /// Reads an address from text; `None` where the text is not one.
    pub fn parse(text: &str) -> (address: Option<Address>)
        ensures
            address matches Some(a) ==> address_in(text@) == Some(a@),
            address is None ==> address_in(text@) is None,
    {
        address_from_str(text)
    }
}

/// The address that a text denotes, if it denotes one.
pub uninterp spec fn address_in(text: Seq<char>) -> Option<Seq<u8>>;

/// `ethabi::Address::from_str`: reads 20 bytes from hexadecimal text. Trusted:
/// whether it accepts a text, and which bytes it then gives, depends on the
/// text alone.
#[verifier::external_body]
fn address_from_str(text: &str) -> (address: Option<Address>)
    ensures
        address matches Some(a) ==> address_in(text@) == Some(a@),
        address is None ==> address_in(text@) is None,
{
    ethabi::Address::from_str(text).ok().map(|h| Address { bytes: h.0 })
}

/// The type of one parameter of a remote function.
#[derive(Clone, Copy, Debug, PartialEq, Eq, Structural)]
pub enum ParamKind {
    /// `address`
    Address,
    /// `uint256`
    Uint256,
    /// `uint256[]`
    Uint256Array,
}

/// One argument of a call.
#[derive(Clone, Debug, PartialEq, Eq)]
pub enum Argument {
    Address(Address),
    Uint(Uint256),
    UintArray(Vec<Uint256>),
}

/// What an `Argument` holds: bytes and numbers.
pub enum ArgumentView {
    Address(Seq<u8>),
    Uint(nat),
    UintArray(Seq<nat>),
}

impl View for Argument {
    type V = ArgumentView;

    open spec fn view(&self) -> ArgumentView {
        match *self {
            Argument::Address(a) => ArgumentView::Address(a@),
            Argument::Uint(n) => ArgumentView::Uint(n@),
            Argument::UintArray(v) => ArgumentView::UintArray(v@.map_values(|n: Uint256| n@)),
        }
    }
}

/// The views of a list of arguments.
pub open spec fn argument_views(args: Seq<Argument>) -> Seq<ArgumentView> {
    args.map_values(|a: Argument| a@)
}

/// The parameter type that an argument has.
pub open spec fn kind_of(arg: ArgumentView) -> ParamKind {
    match arg {
        ArgumentView::Address(_) => ParamKind::Address,
        ArgumentView::Uint(_) => ParamKind::Uint256,
        ArgumentView::UintArray(_) => ParamKind::Uint256Array,
    }
}

/// The arguments are as many as the parameters, and each has its
/// parameter's type.
pub open spec fn well_typed(kinds: Seq<ParamKind>, args: Seq<ArgumentView>) -> bool {
    kinds =~= args.map_values(|a: ArgumentView| kind_of(a))
}

/// The number of 32-byte words that an argument takes in an encoding.
pub open spec fn words_of(arg: ArgumentView) -> nat {
    match arg {
        ArgumentView::Address(_) => 1,
        ArgumentView::Uint(_) => 1,
        ArgumentView::UintArray(items) => 2 + items.len(),
    }
}

/// The number of 32-byte words that a list of arguments takes.
pub open spec fn word_count(args: Seq<ArgumentView>) -> nat
    decreases args.len(),
{
    if args.len() == 0 {
        0
    } else {
        word_count(args.drop_last()) + words_of(args.last())
    }
}

/// The encoder counts bytes in 32 bits: a list of arguments can be encoded
/// when its size in bytes fits.
pub open spec fn encodable(args: Seq<ArgumentView>) -> bool {
    32 * word_count(args) <= u32::MAX
}

/// The functions of the remote contract that a call can name.
#[derive(Clone, Copy, Debug, PartialEq, Eq, Structural)]
pub enum RemoteFunction {
    MultipleSwap,
    SetPaloma,
    UpdateCompass,
    UpdateRefundWallet,
    UpdateFee,
}

impl RemoteFunction {
    /// The name of the function, as the remote contract declares it.
    pub open spec fn spec_name(self) -> Seq<char> {
        match self {
            RemoteFunction::MultipleSwap => "multiple_swap"@,
            RemoteFunction::SetPaloma => "set_paloma"@,
            RemoteFunction::UpdateCompass => "update_compass"@,
            RemoteFunction::UpdateRefundWallet => "update_refund_wallet"@,
            RemoteFunction::UpdateFee => "update_fee"@,
        }
    }

    /// The types of the function's parameters, in the order of declaration.
    pub open spec fn spec_inputs(self) -> Seq<ParamKind> {
        match self {
            RemoteFunction::MultipleSwap => seq![
                ParamKind::Uint256Array,
                ParamKind::Uint256Array,
                ParamKind::Uint256Array,
            ],
            RemoteFunction::SetPaloma => seq![],
            RemoteFunction::UpdateCompass => seq![ParamKind::Address],
            RemoteFunction::UpdateRefundWallet => seq![ParamKind::Address],
            RemoteFunction::UpdateFee => seq![ParamKind::Uint256],
        }
    }

    /// The name of the function.
    pub fn name(self) -> (name: &'static str)
        ensures
            name@ == self.spec_name(),
    {
        match self {
            RemoteFunction::MultipleSwap => "multiple_swap",
            RemoteFunction::SetPaloma => "set_paloma",
            RemoteFunction::UpdateCompass => "update_compass",
            RemoteFunction::UpdateRefundWallet => "update_refund_wallet",
            RemoteFunction::UpdateFee => "update_fee",
        }
    }

    /// The types of the function's parameters.
    pub fn inputs(self) -> (kinds: Vec<ParamKind>)
        ensures
            kinds@ == self.spec_inputs(),
    {
        match self {
            RemoteFunction::MultipleSwap => vec![
                ParamKind::Uint256Array,
                ParamKind::Uint256Array,
                ParamKind::Uint256Array,
            ],
            RemoteFunction::SetPaloma => Vec::new(),
            RemoteFunction::UpdateCompass => vec![ParamKind::Address],
            RemoteFunction::UpdateRefundWallet => vec![ParamKind::Address],
            RemoteFunction::UpdateFee => vec![ParamKind::Uint256],
        }
    }
}

/// The four bytes that select a function of the given name and parameter
/// types on the remote chain.
pub uninterp spec fn selector_of(name: Seq<char>, kinds: Seq<ParamKind>) -> Seq<u8>;

/// The bytes that encode a list of arguments for the remote chain.
pub uninterp spec fn arguments_encoding(args: Seq<ArgumentView>) -> Seq<u8>;

/// `ethabi::short_signature`: the first four bytes of a hash over the
/// function's name and the names of its parameter types. Trusted: the result
/// depends on these two alone.
#[verifier::external_body]
fn short_signature(name: &str, kinds: &Vec<ParamKind>) -> (selector: [u8; 4])
    ensures
        selector@ == selector_of(name@, kinds@),
{
    let params: Vec<ParamType> = kinds.iter().map(|kind| match kind {
        ParamKind::Address => ParamType::Address,
        ParamKind::Uint256 => ParamType::Uint(256),
        ParamKind::Uint256Array => ParamType::Array(Box::new(ParamType::Uint(256))),
    }).collect();
    ethabi::short_signature(name, &params)
}

/// `ethabi::encode`: the encoding of a list of values. Trusted: the result
/// depends on the values alone. The encoder sums the sizes of the parts in
/// 32-bit arithmetic, which `encodable` keeps in range.
#[verifier::external_body]
fn encode(args: &Vec<Argument>) -> (bytes: Vec<u8>)
    requires
        encodable(argument_views(args@)),
    ensures
        bytes@ == arguments_encoding(argument_views(args@)),
{
    let word = |n: &Uint256| Token::Uint(Uint::from_big_endian(&n.bytes));
    let tokens: Vec<Token> = args.iter().map(|arg| match arg {
        Argument::Address(a) => Token::Address(a.bytes.into()),
        Argument::Uint(n) => word(n),
        Argument::UintArray(items) => Token::Array(items.iter().map(word).collect()),
    }).collect();
    ethabi::encode(&tokens)
}

/// The bytes of a call of `function` with the given arguments: the
/// function's selector, then the encoded arguments.
pub open spec fn call_encoding(function: RemoteFunction, args: Seq<ArgumentView>) -> Seq<u8> {
    selector_of(function.spec_name(), function.spec_inputs()) + arguments_encoding(args)
}

/// Whether an argument has the given parameter type.
pub fn has_kind(arg: &Argument, kind: ParamKind) -> (b: bool)
    ensures
        b == (kind_of(arg@) == kind),
{
    match arg {
        Argument::Address(_) => kind == ParamKind::Address,
        Argument::Uint(_) => kind == ParamKind::Uint256,
        Argument::UintArray(_) => kind == ParamKind::Uint256Array,
    }
}

/// Whether the arguments fit the parameter types, one by one.
pub fn types_check(kinds: &Vec<ParamKind>, args: &Vec<Argument>) -> (b: bool)
    ensures
        b == well_typed(kinds@, argument_views(args@)),
{
    if kinds.len() != args.len() {
        return false;
    }
    let ghost views = argument_views(args@);
    let ghost found = views.map_values(|a: ArgumentView| kind_of(a));
    let mut i: usize = 0;
    while i < args.len()
        invariant
            i <= args.len(),
            kinds.len() == args.len(),
            views == argument_views(args@),
            found == views.map_values(|a: ArgumentView| kind_of(a)),
            forall|j: int| 0 <= j < i ==> kinds[j] == found[j],
        decreases args.len() - i,
    {
        if !has_kind(&args[i], kinds[i]) {
            assert(kinds@[i as int] != found[i as int]);
            return false;
        }
        i += 1;
    }
    true
}

/// Encodes a call of `function`: `None` where the arguments do not fit the
/// function's parameters.
pub fn encode_call(function: RemoteFunction, args: &Vec<Argument>) -> (payload: Option<Vec<u8>>)
    requires
        encodable(argument_views(args@)),
    ensures
        payload is Some <==> well_typed(function.spec_inputs(), argument_views(args@)),
        payload matches Some(bytes) ==> bytes@ == call_encoding(function, argument_views(args@)),
{
    let kinds = function.inputs();
    if !types_check(&kinds, args) {
        return None;
    }
    let selector = short_signature(function.name(), &kinds);
    let mut encoded = encode(args);
    let mut bytes: Vec<u8> = Vec::new();
    bytes.push(selector[0]);
    bytes.push(selector[1]);
    bytes.push(selector[2]);
    bytes.push(selector[3]);
    assert(bytes@ =~= selector@);
    bytes.append(&mut encoded);
    Some(bytes)
}

} // verus!
