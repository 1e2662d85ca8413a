//! Service Description Table (table_ids 0x42 / 0x46): service ids and
//! names, the latter decoded from DVB text (EN 300 468).
use vstd::prelude::*;

use crate::section::{
    be16, sec_body, sec_error, sec_table_id, sec_valid, sec_version, SectionError, SectionReader,
};

verus! {

/// One service of an SDT.
#[derive(Debug, Clone)]
pub struct Service {
    pub service_id: u16,
    pub service_name: Option<String>,
}

/// A validated SDT: version and service list.
#[derive(Debug, Clone)]
pub struct SdtSection {
    pub version: u8,
    pub services: Vec<Service>,
}

/// A byte sequence read as characters by codepoint identity (Latin-1 and
/// the basic ISO 6937 subset).
pub open spec fn latin1_chars(s: Seq<u8>) -> Seq<char> {
    Seq::new(s.len(), |i: int| s[i] as char)
}

/// DVB text decoding: the first byte selects the encoding. 0x15 announces
/// UTF-8; 0x10 carries a two-byte code page (page 1 is Latin-1, others fall
/// back to UTF-8 and then Latin-1); any other byte below 0x20 is consumed
/// and the rest read as ISO 6937; a printable first byte means ISO 6937
/// with no prefix.
pub open spec fn dvb_text_spec(d: Seq<u8>) -> Option<Seq<char>> {
    if d.len() == 0 {
        None
    } else if d[0] == 0x15 {
        if vstd::utf8::valid_utf8(d.skip(1)) {
            Some(vstd::utf8::decode_utf8(d.skip(1)))
        } else {
            None
        }
    } else if d[0] == 0x10 {
        if d.len() < 3 {
            None
        } else if d[2] == 1 {
            Some(latin1_chars(d.skip(3)))
        } else if vstd::utf8::valid_utf8(d.skip(3)) {
            Some(vstd::utf8::decode_utf8(d.skip(3)))
        } else {
            Some(latin1_chars(d.skip(3)))
        }
    } else if d[0] < 0x20 {
        Some(latin1_chars(d.skip(1)))
    } else {
        Some(latin1_chars(d))
    }
}

/// Relies on `String::from_utf8`: it accepts exactly the valid UTF-8 byte
/// sequences and decodes them as UTF-8.
#[verifier::external_body]
fn string_from_utf8(bytes: Vec<u8>) -> (r: Option<String>)
    ensures
        r is Some <==> vstd::utf8::valid_utf8(bytes@),
        r matches Some(s) ==> s@ == vstd::utf8::decode_utf8(bytes@),
{
    String::from_utf8(bytes).ok()
}

/// Relies on `char::from` for `u8`: the character is the byte's codepoint.
#[verifier::external_body]
fn char_from_byte(b: u8) -> (c: char)
    ensures
        c == b as char,
{
    char::from(b)
}

/// Relies on `String::push`: it appends exactly one character.
#[verifier::external_body]
fn string_push_char(s: &mut String, c: char)
    ensures
        final(s)@ == old(s)@.push(c),
{
    s.push(c);
}

/// Reads a byte slice as characters by codepoint identity.
fn latin1_to_string(data: &[u8]) -> (r: String)
    ensures
        r@ == latin1_chars(data@),
{
    let mut s = String::new();
    let mut i: usize = 0;
    while i < data.len()
        invariant
            i <= data@.len(),
            s@ == latin1_chars(data@.subrange(0, i as int)),
        decreases data@.len() - i,
    {
        let c = char_from_byte(data[i]);
        string_push_char(&mut s, c);
        proof {
            assert(latin1_chars(data@.subrange(0, i + 1)) =~= latin1_chars(
                data@.subrange(0, i as int),
            ).push(data@[i as int] as char));
        }
        i += 1;
    }
    proof {
        assert(data@.subrange(0, data@.len() as int) =~= data@);
    }
    s
}

/// Decodes a DVB text field (EN 300 468). Latin-1 and basic ISO 6937 are
/// mapped by byte-to-codepoint identity.
pub fn decode_dvb_text(data: &[u8]) -> (r: Option<String>)
    ensures
        r is Some <==> dvb_text_spec(data@) is Some,
        r matches Some(s) ==> Some(s@) == dvb_text_spec(data@),
{
    if data.len() == 0 {
        return None;
    }
    if data[0] == 0x15 {
        let rest = vstd::slice::slice_to_vec(vstd::slice::slice_subrange(data, 1, data.len()));
        proof {
            assert(rest@ =~= data@.skip(1));
        }
        string_from_utf8(rest)
    } else if data[0] == 0x10 {
        if data.len() < 3 {
            return None;
        }
        let rest = vstd::slice::slice_subrange(data, 3, data.len());
        proof {
            assert(rest@ =~= data@.skip(3));
        }
        if data[2] == 1 {
            Some(latin1_to_string(rest))
        } else {
            match string_from_utf8(vstd::slice::slice_to_vec(rest)) {
                Some(s) => Some(s),
                None => Some(latin1_to_string(rest)),
            }
        }
    } else if data[0] < 0x20 {
        let rest = vstd::slice::slice_subrange(data, 1, data.len());
        proof {
            assert(rest@ =~= data@.skip(1));
        }
        Some(latin1_to_string(rest))
    } else {
        Some(latin1_to_string(data))
    }
}

/// The service name carried by a service descriptor (tag 0x48) whose head
/// lies at `di` with payload length `len`: the name field follows the
/// service type and the provider name.
pub open spec fn name_from_desc(b: Seq<u8>, di: int, len: int) -> Option<Seq<char>> {
    let name_start = di + 4 + b[di + 3];
    if name_start < di + 2 + len {
        let nds = name_start + 1;
        let nde = nds + b[name_start];
        if nde <= di + 2 + len {
            dvb_text_spec(b.subrange(nds, nde))
        } else {
            None
        }
    } else {
        None
    }
}

/// The service name found in a descriptor loop over `b[di..dend)`: the
/// last service descriptor with a decodable name wins.
pub open spec fn svc_name_in_descs(b: Seq<u8>, di: int, dend: int) -> Option<Seq<char>>
    decreases dend - di when di >= 0
{
    if di < 0 || di + 2 > dend || dend > b.len() {
        None
    } else {
        let tag = b[di];
        let len = b[di + 1] as int;
        if di + 2 + len > dend {
            None
        } else {
            let rest = svc_name_in_descs(b, di + 2 + len, dend);
            if rest is Some {
                rest
            } else if tag == 0x48 && len >= 3 {
                name_from_desc(b, di, len)
            } else {
                None
            }
        }
    }
}

/// The services read from an SDT body starting at byte `idx`: 5-byte heads
/// (service_id, flags, descriptors-loop length) followed by descriptors.
/// An entry whose descriptors run past the body is dropped, ending the walk.
pub open spec fn sdt_services_from(b: Seq<u8>, idx: int) -> Seq<(int, Option<Seq<char>>)>
    decreases b.len() - idx when idx >= 0
{
    if idx < 0 || idx + 5 > b.len() {
        Seq::empty()
    } else {
        let sid = be16(b[idx], b[idx + 1]);
        let dlen = ((b[idx + 3] & 0x0F) as int) * 256 + b[idx + 4];
        let dend = idx + 5 + dlen;
        if dend > b.len() {
            Seq::empty()
        } else {
            seq![(sid, svc_name_in_descs(b, idx + 5, dend))] + sdt_services_from(b, dend)
        }
    }
}

/// A payload parses as an SDT when its section is valid, its table_id is
/// 0x42 or 0x46, and the body holds the fixed 8-byte head.
pub open spec fn sdt_ok(p: Seq<u8>) -> bool {
    &&& sec_valid(p)
    &&& (sec_table_id(p) == 0x42 || sec_table_id(p) == 0x46)
    &&& sec_body(p).len() >= 8
}

/// The error reported for a payload that does not parse as an SDT.
pub open spec fn sdt_error(p: Seq<u8>) -> SectionError {
    if !sec_valid(p) {
        sec_error(p)
    } else if sec_table_id(p) != 0x42 && sec_table_id(p) != 0x46 {
        SectionError::WrongTableId
    } else {
        SectionError::ShortBody
    }
}

/// The parsed services match the spec-level list: same ids, same names.
pub open spec fn services_match(v: Seq<Service>, m: Seq<(int, Option<Seq<char>>)>) -> bool {
    &&& v.len() == m.len()
    &&& (forall|i: int|
        0 <= i < v.len() ==> #[trigger] v[i].service_id == m[i].0 && (v[i].service_name is Some
            <==> m[i].1 is Some) && (v[i].service_name matches Some(s) ==> Some(s@) == m[i].1))
}

/// Recursive descriptor scan matching [`svc_name_in_descs`].
fn find_svc_name(b: &[u8], di: usize, dend: usize) -> (r: Option<String>)
    requires
        b@.len() < 0x10000,
        dend <= b@.len(),
        di <= dend,
    ensures
        r is Some <==> svc_name_in_descs(b@, di as int, dend as int) is Some,
        r matches Some(s) ==> Some(s@) == svc_name_in_descs(b@, di as int, dend as int),
    decreases dend - di,
{
    if dend - di < 2 {
        return None;
    }
    let tag = b[di];
    let len = b[di + 1] as usize;
    if len > dend - (di + 2) {
        return None;
    }
    let rest = find_svc_name(b, di + 2 + len, dend);
    if rest.is_some() {
        return rest;
    }
    if tag == 0x48 && len >= 3 {
        let name_start = di + 4 + b[di + 3] as usize;
        if name_start < di + 2 + len {
            let snl = b[name_start] as usize;
            let nds = name_start + 1;
            if snl <= di + 2 + len - nds {
                let name_bytes = vstd::slice::slice_subrange(b, nds, nds + snl);
                return decode_dvb_text(name_bytes);
            }
        }
        None
    } else {
        None
    }
}

/// Recursive service collector matching [`sdt_services_from`].
fn sdt_collect(b: &[u8], idx: usize) -> (r: Vec<Service>)
    requires
        b@.len() < 0x10000,
        idx <= b@.len(),
    ensures
        services_match(r@, sdt_services_from(b@, idx as int)),
    decreases b@.len() - idx,
{
    if b.len() - idx < 5 {
        return Vec::new();
    }
    let sid = (b[idx] as u16) * 256 + b[idx + 1] as u16;
    proof {
        crate::bits::lemma_u8_and_bound(b@[idx + 3], 0x0F);
    }
    let dlen = ((b[idx + 3] & 0x0F) as usize) * 256 + b[idx + 4] as usize;
    if dlen > b.len() - (idx + 5) {
        return Vec::new();
    }
    let dend = idx + 5 + dlen;
    let name = find_svc_name(b, idx + 5, dend);
    let mut rest = sdt_collect(b, dend);
    let ghost r0 = rest@;
    let ghost tail = sdt_services_from(b@, dend as int);
    rest.insert(0, Service { service_id: sid, service_name: name });
    proof {
        let m = sdt_services_from(b@, idx as int);
        assert(m =~= seq![
            ((sid as int), svc_name_in_descs(b@, idx + 5, dend as int)),
        ] + tail);
        assert(rest@ =~= seq![Service { service_id: sid, service_name: name }] + r0);
        assert(rest@.len() == m.len());
        assert forall|i: int|
            0 <= i < rest@.len() implies #[trigger] rest@[i].service_id == m[i].0 && (
            rest@[i].service_name is Some <==> m[i].1 is Some) && (
        rest@[i].service_name matches Some(sn) ==> Some(sn@) == m[i].1) by {
            if i == 0 {
                assert(rest@[0] == Service { service_id: sid, service_name: name });
                assert(m[0] == ((sid as int), svc_name_in_descs(b@, idx + 5, dend as int)));
            } else {
                assert(rest@[i] == r0[i - 1]);
                assert(m[i] == tail[i - 1]);
                assert(services_match(r0, tail));
            }
        }
    }
    rest
}

/// Parses an SDT payload: validates the section (including its CRC) and
/// collects the services with their decoded names.
pub fn parse_sdt(payload: &[u8]) -> (r: Result<(u8, SdtSection), SectionError>)
    ensures
        r is Ok <==> sdt_ok(payload@),
        r matches Ok((tid, sdt)) ==> {
            &&& tid == sec_table_id(payload@)
            &&& sdt.version == sec_version(payload@)
            &&& services_match(sdt.services@, sdt_services_from(sec_body(payload@), 8))
        },
        r matches Err(e) ==> e == sdt_error(payload@),
{
    let sec = match SectionReader::new(payload) {
        Ok(s) => s,
        Err(e) => { return Err(e); },
    };
    if sec.table_id != 0x42 && sec.table_id != 0x46 {
        return Err(SectionError::WrongTableId);
    }
    let b = sec.body.as_slice();
    if b.len() < 8 {
        return Err(SectionError::ShortBody);
    }
    proof {
        crate::bits::lemma_u8_and_bound(
            payload@[crate::section::sec_start(payload@) + 1],
            0x0F,
        );
        assert(b@.len() < 0x10000);
    }
    let services = sdt_collect(b, 8);
    Ok((sec.table_id, SdtSection { version: sec.version, services }))
}

} // verus!
