use crate::account::Pubkey;
use crate::error::ProgramError;
use crate::records::{Campaign, CampaignView, WithdrawRequest};
use vstd::bytes::{
    spec_u32_from_le_bytes, spec_u32_to_le_bytes, spec_u64_from_le_bytes, spec_u64_to_le_bytes,
    u32_from_le_bytes, u32_to_le_bytes, u64_from_le_bytes, u64_to_le_bytes,
};
use vstd::prelude::*;
use vstd::slice::{slice_subrange, slice_to_vec};

verus! {

/// Encoding of one length-prefixed field: a 4-byte little-endian length,
/// then the field's bytes.
pub open spec fn spec_encode_field(f: Seq<u8>) -> Seq<u8> {
    spec_u32_to_le_bytes(f.len() as u32) + f
}

/// The record layout of a campaign: the 32-byte admin key, three
/// length-prefixed text fields, and the 8-byte little-endian donation
/// counter, with nothing after it.
pub open spec fn spec_encode_campaign(c: CampaignView) -> Seq<u8> {
    c.admin + spec_encode_field(c.name) + spec_encode_field(c.description)
        + spec_encode_field(c.image_link) + spec_u64_to_le_bytes(c.amount_donated)
}

/// The layout of a withdraw request: its amount as 8 little-endian bytes.
pub open spec fn spec_encode_withdraw(amount: u64) -> Seq<u8> {
    spec_u64_to_le_bytes(amount)
}

/// Parses one length-prefixed field starting at `pos`, yielding the field's
/// bytes and the position just past them, or nothing when the buffer is too
/// short for the prefix or for the announced length.
pub open spec fn spec_parse_field(s: Seq<u8>, pos: int) -> Option<(Seq<u8>, int)> {
    if pos + 4 > s.len() {
        None
    } else {
        let n = spec_u32_from_le_bytes(s.subrange(pos, pos + 4)) as int;
        if pos + 4 + n > s.len() {
            None
        } else {
            Some((s.subrange(pos + 4, pos + 4 + n), pos + 4 + n))
        }
    }
}

/// Parses a whole buffer as a campaign record. Every byte must be consumed:
/// a buffer with trailing bytes after the donation counter is malformed.
pub open spec fn spec_parse_campaign(s: Seq<u8>) -> Option<CampaignView> {
    if s.len() < 32 {
        None
    } else {
        match spec_parse_field(s, 32) {
            None => None,
            Some((name, p1)) => match spec_parse_field(s, p1) {
                None => None,
                Some((description, p2)) => match spec_parse_field(s, p2) {
                    None => None,
                    Some((image_link, p3)) => if p3 + 8 == s.len() {
                        Some(
                            CampaignView {
                                admin: s.subrange(0, 32),
                                name,
                                description,
                                image_link,
                                amount_donated: spec_u64_from_le_bytes(
                                    s.subrange(p3, s.len() as int),
                                ),
                            },
                        )
                    } else {
                        None
                    },
                },
            },
        }
    }
}

/// Parses a whole buffer as a withdraw request: exactly 8 bytes.
pub open spec fn spec_parse_withdraw(s: Seq<u8>) -> Option<u64> {
    if s.len() == 8 {
        Some(spec_u64_from_le_bytes(s))
    } else {
        None
    }
}

/// Appends all of `src` to `out`.
pub fn push_bytes(out: &mut Vec<u8>, src: &[u8])
    ensures
        final(out)@ == old(out)@ + src@,
{
    let mut i: usize = 0;
    while i < src.len()
        invariant
            i <= src@.len(),
            out@ == old(out)@ + src@.subrange(0, i as int),
        decreases src@.len() - i,
    {
        let b = *vstd::slice::slice_index_get(src, i);
        out.push(b);
        proof {
            assert(old(out)@ + src@.subrange(0, i as int) + seq![src@[i as int]] =~= old(
                out,
            )@ + src@.subrange(0, i + 1));
        }
        i = i + 1;
    }
    proof {
        assert(src@.subrange(0, src@.len() as int) =~= src@);
    }
}

/// Appends one length-prefixed field to `out`.
fn encode_field_into(out: &mut Vec<u8>, f: &Vec<u8>)
    requires
        f@.len() <= u32::MAX,
    ensures
        final(out)@ == old(out)@ + spec_encode_field(f@),
{
    let n: u32 = f.len() as u32;
    let prefix = u32_to_le_bytes(n);
    push_bytes(out, prefix.as_slice());
    push_bytes(out, f.as_slice());
    proof {
        assert(old(out)@ + spec_u32_to_le_bytes(n) + f@ =~= old(out)@ + spec_encode_field(f@));
    }
}

/// Encodes a campaign record into a fresh buffer, following the record
/// layout exactly.
pub fn encode_campaign(c: &Campaign) -> (r: Vec<u8>)
    requires
        c.wf(),
    ensures
        r@ == spec_encode_campaign(c@),
{
    let mut out: Vec<u8> = Vec::new();
    push_bytes(&mut out, c.admin.bytes.as_slice());
    encode_field_into(&mut out, &c.name);
    encode_field_into(&mut out, &c.description);
    encode_field_into(&mut out, &c.image_link);
    let counter = u64_to_le_bytes(c.amount_donated);
    push_bytes(&mut out, counter.as_slice());
    proof {
        assert(out@ =~= spec_encode_campaign(c@));
    }
    out
}

/// Encodes a withdraw request into a fresh buffer.
pub fn encode_withdraw_request(w: &WithdrawRequest) -> (r: Vec<u8>)
    ensures
        r@ == spec_encode_withdraw(w.amount),
{
    u64_to_le_bytes(w.amount)
}

/// Parses one length-prefixed field of `bytes` starting at `pos`.
fn decode_field(bytes: &[u8], pos: usize) -> (r: Option<(Vec<u8>, usize)>)
    requires
        pos <= bytes@.len(),
    ensures
        match r {
            Some(fp) => {
                &&& spec_parse_field(bytes@, pos as int) == Some((fp.0@, fp.1 as int))
                &&& pos <= fp.1 <= bytes@.len()
            },
            None => spec_parse_field(bytes@, pos as int) is None,
        },
{
    let len = bytes.len();
    if len - pos < 4 {
        return None;
    }
    let n32 = u32_from_le_bytes(slice_subrange(bytes, pos, pos + 4));
    let n = n32 as usize;
    if n > len - (pos + 4) {
        return None;
    }
    let f = slice_to_vec(slice_subrange(bytes, pos + 4, pos + 4 + n));
    Some((f, pos + 4 + n))
}

/// Decodes a whole buffer into a campaign record, or reports that the buffer
/// is malformed. Succeeds exactly on the buffers the record layout accepts.
pub fn decode_campaign(bytes: &[u8]) -> (r: Result<Campaign, ProgramError>)
    ensures
        match r {
            Ok(c) => {
                &&& spec_parse_campaign(bytes@) == Some(c@)
                &&& c.wf()
            },
            Err(e) => {
                &&& spec_parse_campaign(bytes@) is None
                &&& e == ProgramError::DeserializationError
            },
        },
{
    let len = bytes.len();
    if len < 32 {
        return Err(ProgramError::DeserializationError);
    }
    let admin_bytes = slice_to_vec(slice_subrange(bytes, 0, 32));
    let (name, p1) = match decode_field(bytes, 32) {
        Some(fp) => fp,
        None => {
            return Err(ProgramError::DeserializationError);
        },
    };
    let (description, p2) = match decode_field(bytes, p1) {
        Some(fp) => fp,
        None => {
            return Err(ProgramError::DeserializationError);
        },
    };
    let (image_link, p3) = match decode_field(bytes, p2) {
        Some(fp) => fp,
        None => {
            return Err(ProgramError::DeserializationError);
        },
    };
    if len - p3 != 8 {
        return Err(ProgramError::DeserializationError);
    }
    let amount_donated = u64_from_le_bytes(slice_subrange(bytes, p3, len));
    let c = Campaign {
        admin: Pubkey { bytes: admin_bytes },
        name,
        description,
        image_link,
        amount_donated,
    };
    proof {
        assert(spec_parse_campaign(bytes@) == Some(c@));
    }
    Ok(c)
}

/// Decodes a whole buffer into a withdraw request, or reports that the
/// buffer is malformed.
pub fn decode_withdraw_request(bytes: &[u8]) -> (r: Result<WithdrawRequest, ProgramError>)
    ensures
        match r {
            Ok(w) => spec_parse_withdraw(bytes@) == Some(w.amount),
            Err(e) => {
                &&& spec_parse_withdraw(bytes@) is None
                &&& e == ProgramError::DeserializationError
            },
        },
{
    if bytes.len() != 8 {
        return Err(ProgramError::DeserializationError);
    }
    let amount = u64_from_le_bytes(bytes);
    Ok(WithdrawRequest { amount })
}

/// Encoding is lossless: parsing an encoded well-formed campaign yields the
/// campaign itself.
pub proof fn lemma_parse_encode_campaign(c: CampaignView)
    requires
        c.wf(),
    ensures
        spec_parse_campaign(spec_encode_campaign(c)) == Some(c),
{
    vstd::bytes::lemma_auto_spec_u32_to_from_le_bytes();
    vstd::bytes::lemma_auto_spec_u64_to_from_le_bytes();
    let s = spec_encode_campaign(c);
    let n1 = c.name.len() as int;
    let n2 = c.description.len() as int;
    let n3 = c.image_link.len() as int;
    let q1 = 36 + n1;
    let q2 = q1 + 4 + n2;
    let q3 = q2 + 4 + n3;
    assert(s.len() == q3 + 8);
    assert(s.subrange(0, 32) =~= c.admin);
    assert(s.subrange(32, 36) =~= spec_u32_to_le_bytes(c.name.len() as u32));
    assert(s.subrange(36, q1) =~= c.name);
    assert(s.subrange(q1, q1 + 4) =~= spec_u32_to_le_bytes(c.description.len() as u32));
    assert(s.subrange(q1 + 4, q2) =~= c.description);
    assert(s.subrange(q2, q2 + 4) =~= spec_u32_to_le_bytes(c.image_link.len() as u32));
    assert(s.subrange(q2 + 4, q3) =~= c.image_link);
    assert(s.subrange(q3, s.len() as int) =~= spec_u64_to_le_bytes(c.amount_donated));
    assert(spec_parse_field(s, 32) == Some((c.name, q1)));
    assert(spec_parse_field(s, q1) == Some((c.description, q2)));
    assert(spec_parse_field(s, q2) == Some((c.image_link, q3)));
    assert(spec_parse_campaign(s)->Some_0 =~= c);
}

/// Parsing is exact: a buffer that parses as a campaign is byte for byte the
/// encoding of the well-formed campaign it parses to.
pub proof fn lemma_encode_parse_campaign(s: Seq<u8>)
    requires
        spec_parse_campaign(s) is Some,
    ensures
        spec_parse_campaign(s)->Some_0.wf(),
        spec_encode_campaign(spec_parse_campaign(s)->Some_0) == s,
{
    vstd::bytes::lemma_auto_spec_u32_to_from_le_bytes();
    vstd::bytes::lemma_auto_spec_u64_to_from_le_bytes();
    let c = spec_parse_campaign(s)->Some_0;
    let fp1 = spec_parse_field(s, 32)->Some_0;
    let p1 = fp1.1;
    let fp2 = spec_parse_field(s, p1)->Some_0;
    let p2 = fp2.1;
    let fp3 = spec_parse_field(s, p2)->Some_0;
    let p3 = fp3.1;
    assert(c.admin == s.subrange(0, 32));
    assert(c.name == s.subrange(36, p1));
    assert(c.description == s.subrange(p1 + 4, p2));
    assert(c.image_link == s.subrange(p2 + 4, p3));
    assert(p3 + 8 == s.len());
    assert(spec_encode_field(c.name) =~= s.subrange(32, p1));
    assert(spec_encode_field(c.description) =~= s.subrange(p1, p2));
    assert(spec_encode_field(c.image_link) =~= s.subrange(p2, p3));
    assert(spec_u64_to_le_bytes(c.amount_donated) == s.subrange(p3, s.len() as int));
    assert(spec_encode_campaign(c) =~= s);
}

} // verus!
