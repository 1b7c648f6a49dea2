use vstd::prelude::*;
use base64::Engine;
use crate::events::opt_str_view;

verus! {

/// The base64 text (standard alphabet, with padding) that the message
/// encoder produces for `data`.
pub uninterp spec fn message_base64_of(data: Seq<u8>) -> Seq<char>;

/// The bytes the message decoder recovers from `text`; none when `text` is
/// not base64 it accepts.
pub uninterp spec fn message_base64_decoded(text: Seq<char>) -> Option<Seq<u8>>;

#[verifier::external_type_specification]
#[verifier::external_body]
pub struct ExDecodeError(base64::DecodeError);

/// Relies on base64's STANDARD engine encode: base64 of the input, a function
/// of the input bytes alone, which the same engine's decode inverts.
#[verifier::external_body]
fn b64_encode(data: &[u8]) -> (r: String)
    ensures
        r@ == message_base64_of(data@),
        message_base64_decoded(r@) == Some(data@),
{
    base64::engine::general_purpose::STANDARD.encode(data)
}

/// Relies on base64's STANDARD engine decode: succeeds exactly on the text
/// that engine accepts, a function of the text alone.
#[verifier::external_body]
fn b64_decode(text: &str) -> (r: Result<Vec<u8>, base64::DecodeError>)
    ensures
        match r {
            Ok(v) => message_base64_decoded(text@) == Some(v@),
            Err(_) => message_base64_decoded(text@) is None,
        },
{
    base64::engine::general_purpose::STANDARD.decode(text)
}

/// A message whose payload is not base64 the decoder accepts.
#[derive(Clone, Copy, PartialEq, Eq, Debug)]
pub enum MessageDecodeError {
    InvalidBase64,
}

/// A message as the topic carries it: a base64 payload, an optional
/// string-to-string attribute map, and an optional ordering key.
pub struct EncodedMessage {
    data: String,
    attributes: Option<Vec<(String, String)>>,
    ordering_key: Option<String>,
}

/// Decoding of a received message into a value of the caller's choosing.
pub trait FromPubSubMessage where Self: core::marker::Sized {
    fn from(message: EncodedMessage) -> Result<Self, MessageDecodeError>;
}

impl EncodedMessage {
    /// The payload text.
    pub closed spec fn data_view(&self) -> Seq<char> {
        self.data@
    }

    /// The attribute pairs, in order.
    pub closed spec fn attributes_view(&self) -> Option<Seq<(String, String)>> {
        match self.attributes {
            Option::None => None,
            Option::Some(v) => Some(v@),
        }
    }

    /// The ordering key.
    pub closed spec fn ordering_key_view(&self) -> Option<Seq<char>> {
        opt_str_view(self.ordering_key)
    }

    /// The payload, decoded back into bytes.
    pub fn decode(&self) -> (r: Result<Vec<u8>, MessageDecodeError>)
        ensures
            match r {
                Ok(v) => message_base64_decoded(self.data_view()) == Some(v@),
                Err(_) => message_base64_decoded(self.data_view()) is None,
            },
    {
        match b64_decode(self.data.as_str()) {
            Ok(v) => Ok(v),
            Err(_) => Err(MessageDecodeError::InvalidBase64),
        }
    }

    /// The attribute map, when the message carries one.
    pub fn attributes(&self) -> (r: Option<&Vec<(String, String)>>)
        ensures
            match r {
                Some(m) => self.attributes_view() == Some(m@),
                None => self.attributes_view() is None,
            },
    {
        self.attributes.as_ref()
    }

    /// The payload text as carried.
    pub fn data(&self) -> (r: &String)
        ensures
            r@ == self.data_view(),
    {
        &self.data
    }

    /// The ordering key, when the message carries one.
    pub fn ordering_key(&self) -> (r: &Option<String>)
        ensures
            opt_str_view(*r) == self.ordering_key_view(),
    {
        &self.ordering_key
    }

    /// Reassembles a message as received from the topic, its payload text
    /// taken as carried.
    pub fn from_parts(
        data: String,
        attributes: Option<Vec<(String, String)>>,
        ordering_key: Option<String>,
    ) -> (r: EncodedMessage)
        ensures
            r.data_view() == data@,
            r.attributes_view() == match attributes {
                Option::None => None::<Seq<(String, String)>>,
                Option::Some(v) => Some(v@),
            },
            r.ordering_key_view() == opt_str_view(ordering_key),
    {
        EncodedMessage { data, attributes, ordering_key }
    }

    /// Packs raw bytes into a message: the payload becomes their base64 text,
    /// carried beside the attributes and the ordering key unchanged.
    pub fn new_binary(
        incoming: &[u8],
        attributes: Option<Vec<(String, String)>>,
        ordering_key: Option<String>,
    ) -> (r: EncodedMessage)
        ensures
            r.data_view() == message_base64_of(incoming@),
            message_base64_decoded(r.data_view()) == Some(incoming@),
            r.attributes_view() == match attributes {
                Option::None => None::<Seq<(String, String)>>,
                Option::Some(v) => Some(v@),
            },
            r.ordering_key_view() == opt_str_view(ordering_key),
    {
        let data = b64_encode(incoming);
        EncodedMessage { data, attributes, ordering_key }
    }
}

} // verus!
