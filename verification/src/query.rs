//! The addresses of the service's endpoints.

use vstd::prelude::*;
use vstd::utf8::encode_utf8;

verus! {

/// The bytes that a search term keeps as they are: ASCII letters and digits.
pub open spec fn is_alphanumeric(b: u8) -> bool {
    (0x30 <= b <= 0x39) || (0x41 <= b <= 0x5a) || (0x61 <= b <= 0x7a)
}

/// The upper-case hexadecimal digit of a value below sixteen.
pub open spec fn hex_digit(n: int) -> char {
    if n < 10 {
        ((0x30 + n) as u8) as char
    } else {
        ((0x41 + n - 10) as u8) as char
    }
}

/// The value of a hexadecimal digit of either case.
pub open spec fn hex_value(c: char) -> Option<int> {
    if '0' <= c <= '9' {
        Some(c as int - 0x30)
    } else if 'A' <= c <= 'F' {
        Some(c as int - 0x41 + 10)
    } else if 'a' <= c <= 'f' {
        Some(c as int - 0x61 + 10)
    } else {
        None
    }
}

/// One byte as it stands in an address: itself, or `%` and its two
/// hexadecimal digits.
pub open spec fn escaped(b: u8) -> Seq<char> {
    if is_alphanumeric(b) {
        seq![b as char]
    } else {
        seq!['%', hex_digit(b as int / 16), hex_digit(b as int % 16)]
    }
}

/// The percent-encoding of a byte string that escapes every byte but ASCII
/// letters and digits.
pub open spec fn percent_encoded(bytes: Seq<u8>) -> Seq<char>
    decreases bytes.len(),
{
    if bytes.len() == 0 {
        Seq::empty()
    } else {
        escaped(bytes[0]) + percent_encoded(bytes.subrange(1, bytes.len() as int))
    }
}

/// The bytes that a percent-encoded text stands for: `%` with two hexadecimal
/// digits behind it is one byte, every other character is its own byte.
pub open spec fn percent_decoded(text: Seq<char>) -> Seq<u8>
    decreases text.len(),
{
    if text.len() == 0 {
        Seq::empty()
    } else if text[0] == '%' && text.len() >= 3 && hex_value(text[1]) is Some && hex_value(
        text[2],
    ) is Some {
        seq![(16 * hex_value(text[1])->Some_0 + hex_value(text[2])->Some_0) as u8]
            + percent_decoded(text.subrange(3, text.len() as int))
    } else {
        seq![text[0] as u8] + percent_decoded(text.subrange(1, text.len() as int))
    }
}

proof fn lemma_hex_digit(n: int)
    requires
        0 <= n < 16,
    ensures
        hex_value(hex_digit(n)) == Some(n),
{
}

proof fn lemma_escaped_decodes(b: u8, rest: Seq<char>)
    ensures
        percent_decoded(escaped(b) + rest) == seq![b] + percent_decoded(rest),
{
    let text = escaped(b) + rest;
    if is_alphanumeric(b) {
        assert(text[0] == b as char);
        assert(text[0] != '%');
        assert(text.subrange(1, text.len() as int) =~= rest);
        assert(text[0] as u8 == b);
    } else {
        let hi = b as int / 16;
        let lo = b as int % 16;
        lemma_hex_digit(hi);
        lemma_hex_digit(lo);
        assert(text[0] == '%');
        assert(text[1] == hex_digit(hi));
        assert(text[2] == hex_digit(lo));
        assert(text.subrange(3, text.len() as int) =~= rest);
        assert(16 * hi + lo == b as int);
    }
}

/// Decoding what the encoding of a search term gave yields the term's bytes
/// again, whatever the term holds.
pub proof fn lemma_encoding_round_trip(bytes: Seq<u8>)
    ensures
        percent_decoded(percent_encoded(bytes)) == bytes,
    decreases bytes.len(),
{
    if bytes.len() == 0 {
        assert(percent_decoded(percent_encoded(bytes)) =~= bytes);
    } else {
        let rest = bytes.subrange(1, bytes.len() as int);
        lemma_encoding_round_trip(rest);
        lemma_escaped_decodes(bytes[0], percent_encoded(rest));
        assert(seq![bytes[0]] + rest =~= bytes);
    }
}

/// `percent_encoding::utf8_percent_encode` with the set `NON_ALPHANUMERIC`,
/// collected into a `String`: every byte of the term's UTF-8 form that is no
/// ASCII letter or digit becomes `%` and two upper-case hexadecimal digits, and
/// the others stay.
#[verifier::external_body]
fn percent_encode(term: &str) -> (r: String)
    ensures
        r@ == percent_encoded(encode_utf8(term@)),
{
    percent_encoding::utf8_percent_encode(term, percent_encoding::NON_ALPHANUMERIC).to_string()
}

/// A search term as it stands in the address of a search.
pub fn encode_search_term(term: &str) -> (r: String)
    ensures
        r@ == percent_encoded(encode_utf8(term@)),
        percent_decoded(r@) == encode_utf8(term@),
{
    proof {
        lemma_encoding_round_trip(encode_utf8(term@));
    }
    percent_encode(term)
}

/// The address that queries stations by name; `name` is already encoded.
pub fn query_url_name(name: &str) -> (url: String)
    ensures
        url@ == "https://www.mvg.de/api/fahrinfo/location/queryWeb?q="@ + name@,
{
    let mut url = String::from_str("https://www.mvg.de/api/fahrinfo/location/queryWeb?q=");
    url.append(name);
    url
}

/// The address that queries a station by its id.
pub fn query_url_id(id: &str) -> (url: String)
    ensures
        url@ == "https://www.mvg.de/api/fahrinfo/departure/"@ + id@ + "?footway=0"@,
{
    let mut url = String::from_str("https://www.mvg.de/api/fahrinfo/departure/");
    url.append(id);
    url.append("?footway=0");
    url
}

/// The address that queries the departures of a station by its id.
pub fn departure_url(id: &str) -> (url: String)
    ensures
        url@ == "https://www.mvg.de/api/fahrinfo/departure/"@ + id@ + "?footway=0"@,
{
    let mut url = String::from_str("https://www.mvg.de/api/fahrinfo/departure/");
    url.append(id);
    url.append("?footway=0");
    url
}

/// The address that queries the stations near a coordinate. Both values are
/// given as decimal text and stand in the address as they are.
pub fn nearby_url(lat: &str, lon: &str) -> (url: String)
    ensures
        url@ == "https://www.mvg.de/api/fahrinfo/location/nearby?latitude="@ + lat@
            + "&longitude="@ + lon@,
{
    let mut url = String::from_str("https://www.mvg.de/api/fahrinfo/location/nearby?latitude=");
    url.append(lat);
    url.append("&longitude=");
    url.append(lon);
    url
}

/// The options of a request, each `name=value`, joined by `&`.
pub open spec fn joined(options: Seq<Seq<char>>) -> Seq<char>
    decreases options.len(),
{
    if options.len() == 0 {
        Seq::empty()
    } else if options.len() == 1 {
        options[0]
    } else {
        joined(options.drop_last()) + "&"@ + options.last()
    }
}

/// The texts that some strings hold, in their order.
pub open spec fn texts(strings: Seq<String>) -> Seq<Seq<char>> {
    Seq::new(strings.len(), |i: int| strings[i]@)
}

/// Joins the options of a request by `&`.
pub fn join_options(options: &Vec<String>) -> (r: String)
    ensures
        r@ == joined(texts(options@)),
{
    let mut r = String::new();
    let mut i: usize = 0;
    while i < options.len()
        invariant
            i <= options.len(),
            r@ == joined(texts(options@).take(i as int)),
        decreases options.len() - i,
    {
        if i > 0 {
            r.append("&");
        }
        r.append(options[i].as_str());
        proof {
            let now = texts(options@).take(i as int + 1);
            assert(now.drop_last() =~= texts(options@).take(i as int));
            assert(now.last() == options@[i as int]@);
            if i == 0 {
                assert(r@ =~= options@[0]@);
            }
        }
        i += 1;
    }
    proof {
        assert(texts(options@).take(options.len() as int) =~= texts(options@));
    }
    r
}

/// One option of a request.
pub fn option_text(name: &str, value: &str) -> (r: String)
    ensures
        r@ == name@ + "="@ + value@,
{
    let mut r = String::from_str(name);
    r.append("=");
    r.append(value);
    r
}

/// The address that queries the journeys from one station to another, with
/// further options behind the two stations. Each of them is written as it is
/// given, `name=value`.
pub fn routing_url_with(from_id: &str, to_id: &str, more: &Vec<String>) -> (url: String)
    ensures
        url@ == "https://www.mvg.de/api/fahrinfo/routing/?"@ + joined(
            seq!["fromStation"@ + "="@ + from_id@, "toStation"@ + "="@ + to_id@] + texts(more@),
        ),
{
    let mut options: Vec<String> = Vec::new();
    options.push(option_text("fromStation", from_id));
    options.push(option_text("toStation", to_id));
    let mut i: usize = 0;
    while i < more.len()
        invariant
            i <= more.len(),
            options@.len() == 2 + i,
            options@[0]@ == "fromStation"@ + "="@ + from_id@,
            options@[1]@ == "toStation"@ + "="@ + to_id@,
            forall|j: int| 2 <= j < 2 + i ==> (#[trigger] options@[j])@ == more@[j - 2]@,
        decreases more.len() - i,
    {
        options.push(more[i].clone());
        i += 1;
    }
    let query = join_options(&options);
    proof {
        assert(texts(options@) =~= seq![
            "fromStation"@ + "="@ + from_id@,
            "toStation"@ + "="@ + to_id@,
        ] + texts(more@));
    }
    let mut url = String::from_str("https://www.mvg.de/api/fahrinfo/routing/?");
    url.append(query.as_str());
    url
}

/// The address that queries the journeys from one station to another. The two
/// stations are its only options.
pub fn routing_url(from_id: &str, to_id: &str) -> (url: String)
    ensures
        url@ == "https://www.mvg.de/api/fahrinfo/routing/?"@ + ("fromStation"@ + "="@ + from_id@)
            + "&"@ + ("toStation"@ + "="@ + to_id@),
{
    let none: Vec<String> = Vec::new();
    let url = routing_url_with(from_id, to_id, &none);
    proof {
        let first = "fromStation"@ + "="@ + from_id@;
        let second = "toStation"@ + "="@ + to_id@;
        let both = seq![first, second];
        assert(both + texts(none@) =~= both);
        assert(both.drop_last() =~= seq![first]);
        assert(joined(both.drop_last()) == first);
        assert(joined(both) == first + "&"@ + second);
        assert(url@ =~= "https://www.mvg.de/api/fahrinfo/routing/?"@ + first + "&"@ + second);
    }
    url
}

/// The address of the feed of interruptions.
pub fn interruptions_url() -> (url: String)
    ensures
        url@ == "https://www.mvg.de/.rest/betriebsaenderungen/api/interruptions"@,
{
    String::from_str("https://www.mvg.de/.rest/betriebsaenderungen/api/interruptions")
}

} // verus!
