//! The answers of the metrics server.

use crate::client::ChainClient;
use crate::prom;
use crate::scrape;
use prometheus::proto::MetricFamily;
use vstd::prelude::*;
use vstd::utf8;

verus! {

/// A plain text answer to a request.
pub struct Reply {
    pub status: u16,
    pub body: String,
}

/// What a request is refused with, if it is: only `/metrics` is served, and only to `GET`.
pub open spec fn refusal_of(url: Seq<char>, method: Seq<char>) -> Option<(u16, Seq<char>)> {
    if url != "/metrics"@ {
        Some((404, "Not Found"@))
    } else if method != "GET"@ {
        Some((405, "Method Not Allowed"@))
    } else {
        None
    }
}

/// The refusal of a request, or nothing where it is to be served.
pub fn refusal(url: &str, method: &str) -> (reply: Option<Reply>)
    ensures
        reply is Some <==> refusal_of(url@, method@) is Some,
        reply matches Some(r) ==> Some((r.status, r.body@)) == refusal_of(url@, method@),
{
    if url.to_owned() != "/metrics".to_owned() {
        Some(Reply { status: 404, body: "Not Found".to_owned() })
    } else if method.to_owned() != "GET".to_owned() {
        Some(Reply { status: 405, body: "Method Not Allowed".to_owned() })
    } else {
        None
    }
}

/// Encoding two texts and putting the bytes together is encoding the two put together.
proof fn lemma_encode_utf8_concat(a: Seq<char>, b: Seq<char>)
    ensures
        utf8::encode_utf8(a + b) == utf8::encode_utf8(a) + utf8::encode_utf8(b),
    decreases a.len(),
{
    if a.len() == 0 {
        assert(a + b =~= b);
        assert(utf8::encode_utf8(a) =~= Seq::empty());
        assert(utf8::encode_utf8(a) + utf8::encode_utf8(b) =~= utf8::encode_utf8(b));
    } else {
        assert((a + b).drop_first() =~= a.drop_first() + b);
        lemma_encode_utf8_concat(a.drop_first(), b);
        assert(utf8::encode_utf8(a + b) =~= utf8::encode_utf8(a) + utf8::encode_utf8(b));
    }
}

/// The text of two lists of metrics, one after the other.
pub fn render(first: &Vec<MetricFamily>, second: &Vec<MetricFamily>) -> (text: String)
    requires
        prom::has_text(first@),
        prom::has_text(second@),
    ensures
        text@ == prom::text_of(first@) + prom::text_of(second@),
{
    let mut buffer: Vec<u8> = vec![];
    prom::append_text(first, &mut buffer).unwrap();
    prom::append_text(second, &mut buffer).unwrap();
    proof {
        let text = prom::text_of(first@) + prom::text_of(second@);
        lemma_encode_utf8_concat(prom::text_of(first@), prom::text_of(second@));
        assert(buffer@ =~= utf8::encode_utf8(text));
        utf8::encode_utf8_valid_utf8(text);
        utf8::encode_utf8_decode_utf8(text);
    }
    prom::string_from_utf8(buffer).unwrap()
}

/// Answers a request with the metrics of two clients, or refuses it.
pub fn respond(url: &str, method: &str, test_client: &ChainClient, main_client: &ChainClient) -> (
reply: Reply)
    requires
        test_client.wf(),
        main_client.wf(),
    ensures
        refusal_of(url@, method@) matches Some(refused) ==> (reply.status, reply.body@) == refused,
        refusal_of(url@, method@) is None ==> reply.status == 200,
        refusal_of(url@, method@) is None ==> exists|
            first: Seq<MetricFamily>,
            second: Seq<MetricFamily>,
        |
            {
                &&& #[trigger] scrape::shows(first, *test_client)
                &&& #[trigger] scrape::shows(second, *main_client)
                &&& reply.body@ == prom::text_of(first) + prom::text_of(second)
            },
{
    match refusal(url, method) {
        Some(reply) => reply,
        None => {
            let first = test_client.gather();
            let second = main_client.gather();
            assert(scrape::shows(first@, *test_client));
            assert(scrape::shows(second@, *main_client));
            let body = render(&first, &second);
            Reply { status: 200, body }
        },
    }
}

/// Only `/metrics` is served, letter for letter, and only to `GET`; another address is not found,
/// whatever the method.
pub proof fn law_only_metrics_are_served(url: Seq<char>, method: Seq<char>)
    ensures
        refusal_of(url, method) is None <==> url == "/metrics"@ && method == "GET"@,
        url != "/metrics"@ ==> refusal_of(url, method) == Some((404u16, "Not Found"@)),
        url == "/metrics"@ && method != "GET"@ ==> refusal_of(url, method) == Some(
            (405u16, "Method Not Allowed"@),
        ),
{
}

} // verus!
