use vstd::prelude::*;

verus! {

/// A basic-publish command: where the message goes, its body and properties.
#[derive(Clone, Debug)]
pub struct Publication {
    pub exchange: String,
    pub routing_key: String,
    pub body: Vec<u8>,
    pub content_type: String,
    pub mandatory: bool,
    pub immediate: bool,
}

/// Mathematical model of a [`Publication`].
pub struct PublicationModel {
    pub exchange: Seq<char>,
    pub routing_key: Seq<char>,
    pub body: Seq<u8>,
    pub content_type: Seq<char>,
    pub mandatory: bool,
    pub immediate: bool,
}

impl View for Publication {
    type V = PublicationModel;

    open spec fn view(&self) -> PublicationModel {
        PublicationModel {
            exchange: self.exchange@,
            routing_key: self.routing_key@,
            body: self.body@,
            content_type: self.content_type@,
            mandatory: self.mandatory,
            immediate: self.immediate,
        }
    }
}

/// The content type that every message carries.
pub open spec fn text_content_type() -> Seq<char> {
    "text"@
}

/// Every message is sent as text, must be routable (the broker reports it
/// back otherwise) and need not be delivered to a consumer at once.
pub open spec fn text_message(exchange: Seq<char>, routing_key: Seq<char>, body: Seq<u8>) -> PublicationModel {
    PublicationModel {
        exchange,
        routing_key,
        body,
        content_type: text_content_type(),
        mandatory: true,
        immediate: false,
    }
}

pub(crate) fn text_publication(exchange: &str, routing_key: &str, body: Vec<u8>) -> (p: Publication)
    ensures
        p@ == text_message(exchange@, routing_key@, body@),
{
    Publication {
        exchange: exchange.to_owned(),
        routing_key: routing_key.to_owned(),
        body,
        content_type: "text".to_owned(),
        mandatory: true,
        immediate: false,
    }
}

} // verus!
