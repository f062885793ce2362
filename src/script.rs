//! Script assembly: data pushes, P2PKH unlocking scripts, Taproot output
//! scripts and the inscription reveal script.
use vstd::prelude::*;
use crate::address::append_all;

verus! {

/// The largest data push that standard scripts allow.
pub const MAX_PUSH: usize = 520;

/// `OP_CHECKSIG`.
pub const OP_CHECKSIG: u8 = 0xac;

/// The shortest push of `d` that does not read it as a number: a length
/// byte, or `OP_PUSHDATA1`, `OP_PUSHDATA2` or `OP_PUSHDATA4` with a
/// little-endian length.
pub open spec fn push_data(d: Seq<u8>) -> Seq<u8> {
    let n = d.len();
    if n <= 75 {
        seq![n as u8] + d
    } else if n <= 0xff {
        seq![0x4cu8, n as u8] + d
    } else if n <= 0xffff {
        seq![0x4du8, (n % 256) as u8, (n / 256) as u8] + d
    } else {
        seq![0x4eu8, (n % 256) as u8, ((n / 256) % 256) as u8, ((n / 65536) % 256) as u8, (n / 16777216) as u8] + d
    }
}

/// `<signature> <public key>`: the unlocking script of a P2PKH output.
pub open spec fn p2pkh_script_sig(signature: Seq<u8>, public_key: Seq<u8>) -> Seq<u8> {
    push_data(signature) + push_data(public_key)
}

/// `OP_1 <32-byte output key>`: the output script of a Taproot address.
pub open spec fn p2tr_script(output_key: Seq<u8>) -> Seq<u8> {
    seq![0x51u8, 0x20u8] + output_key
}

/// `b` as consecutive pushes of at most `MAX_PUSH` bytes each.
pub open spec fn chunked_pushes(b: Seq<u8>) -> Seq<u8>
    decreases b.len(),
{
    if b.len() <= MAX_PUSH {
        push_data(b)
    } else {
        push_data(b.subrange(0, MAX_PUSH as int)) + chunked_pushes(b.subrange(MAX_PUSH as int, b.len() as int))
    }
}

/// The protocol tag `ord` that opens an inscription envelope.
pub open spec fn envelope_tag() -> Seq<u8> {
    seq![0x6fu8, 0x72u8, 0x64u8]
}

/// The inscription envelope: `OP_FALSE OP_IF "ord"`, then `1 <content type>`
/// if there is one, then `OP_0` and the body in pushes if there is one, then
/// `OP_ENDIF`. The branch is never taken, so the data is never executed. An
/// inscription with neither part has no envelope.
pub open spec fn envelope(content_type: Option<Seq<u8>>, body: Option<Seq<u8>>) -> Seq<u8> {
    if content_type is None && body is None {
        seq![]
    } else {
        let ct = match content_type {
            Some(c) => push_data(seq![1u8]) + push_data(c),
            None => seq![],
        };
        let bd = match body {
            Some(b) => seq![0x00u8] + chunked_pushes(b),
            None => seq![],
        };
        seq![0x00u8, 0x63u8] + push_data(envelope_tag()) + ct + bd + seq![0x68u8]
    }
}

/// The reveal leaf script: the envelope, then `<internal key> OP_CHECKSIG`.
pub open spec fn reveal_script_of(internal_key: Seq<u8>, content_type: Option<Seq<u8>>, body: Option<Seq<u8>>) -> Seq<u8> {
    envelope(content_type, body) + push_data(internal_key) + seq![OP_CHECKSIG]
}

/// Data to inscribe: an optional content type and an optional body.
#[derive(Clone, Debug)]
pub struct Inscription {
    pub content_type: Option<Vec<u8>>,
    pub body: Option<Vec<u8>>,
}

impl Inscription {
    pub fn new(content_type: Option<Vec<u8>>, body: Option<Vec<u8>>) -> (r: Inscription)
        ensures
            r.content_type == content_type,
            r.body == body,
    {
        Inscription { content_type, body }
    }

    pub open spec fn content_type_view(&self) -> Option<Seq<u8>> {
        match self.content_type {
            Some(c) => Some(c@),
            None => None,
        }
    }

    pub open spec fn body_view(&self) -> Option<Seq<u8>> {
        match self.body {
            Some(b) => Some(b@),
            None => None,
        }
    }
}

/// Appends the push of `data` to `script`.
pub fn push_slice(script: &mut Vec<u8>, data: &Vec<u8>, start: usize, end: usize)
    requires
        start <= end <= data@.len(),
        end - start <= u32::MAX,
    ensures
        final(script)@ == old(script)@ + push_data(data@.subrange(start as int, end as int)),
{
    let n = end - start;
    if n <= 75 {
        script.push(n as u8);
    } else if n <= 0xff {
        script.push(0x4c);
        script.push(n as u8);
    } else if n <= 0xffff {
        script.push(0x4d);
        script.push((n % 256) as u8);
        script.push((n / 256) as u8);
    } else {
        script.push(0x4e);
        script.push((n % 256) as u8);
        script.push(((n / 256) % 256) as u8);
        script.push(((n / 65536) % 256) as u8);
        script.push((n / 16777216) as u8);
    }
    let ghost head = script@;
    let mut i: usize = start;
    while i < end
        invariant
            start <= i <= end <= data@.len(),
            script@ == head + data@.subrange(start as int, i as int),
        decreases end - i,
    {
        script.push(data[i]);
        i = i + 1;
        assert(script@ =~= head + data@.subrange(start as int, i as int));
    }
    assert(script@ =~= old(script)@ + push_data(data@.subrange(start as int, end as int)));
}

/// Appends the push of all of `data` to `script`.
pub fn push_all(script: &mut Vec<u8>, data: &Vec<u8>)
    requires
        data@.len() <= u32::MAX,
    ensures
        final(script)@ == old(script)@ + push_data(data@),
{
    push_slice(script, data, 0, data.len());
    assert(data@.subrange(0, data@.len() as int) =~= data@);
}

/// `<signature> <public key>`: the unlocking script of a P2PKH output.
pub fn p2pkh_unlocking_script(signature: &Vec<u8>, public_key: &Vec<u8>) -> (r: Vec<u8>)
    requires
        signature@.len() <= u32::MAX,
        public_key@.len() <= u32::MAX,
    ensures
        r@ == p2pkh_script_sig(signature@, public_key@),
{
    let mut s: Vec<u8> = Vec::new();
    push_all(&mut s, signature);
    push_all(&mut s, public_key);
    assert(s@ =~= p2pkh_script_sig(signature@, public_key@));
    s
}

/// `OP_1 <output key>`: the output script of a Taproot address.
pub fn p2tr_script_pubkey(output_key: &Vec<u8>) -> (r: Vec<u8>)
    requires
        output_key@.len() == 32,
    ensures
        r@ == p2tr_script(output_key@),
{
    let mut s = vec![0x51u8, 0x20u8];
    append_all(&mut s, output_key);
    s
}

fn push_chunked(script: &mut Vec<u8>, b: &Vec<u8>)
    requires
        b@.len() <= u32::MAX,
    ensures
        final(script)@ == old(script)@ + chunked_pushes(b@),
{
    let n = b.len();
    let mut i: usize = 0;
    assert(b@.subrange(0, n as int) =~= b@);
    while n - i > MAX_PUSH
        invariant
            n == b@.len(),
            n <= u32::MAX,
            i <= n,
            script@ + chunked_pushes(b@.subrange(i as int, n as int)) == old(script)@ + chunked_pushes(b@),
        decreases n - i,
    {
        let ghost rest = b@.subrange(i as int, n as int);
        push_slice(script, b, i, i + MAX_PUSH);
        proof {
            assert(rest.subrange(0, MAX_PUSH as int) =~= b@.subrange(i as int, i + MAX_PUSH));
            assert(rest.subrange(MAX_PUSH as int, rest.len() as int) =~= b@.subrange(i + MAX_PUSH, n as int));
        }
        i = i + MAX_PUSH;
    }
    push_slice(script, b, i, n);
}

/// The reveal leaf script for `internal_key` carrying `inscription`.
pub fn reveal_script(internal_key: &Vec<u8>, inscription: &Inscription) -> (r: Vec<u8>)
    requires
        internal_key@.len() == 32,
        inscription.content_type matches Some(c) ==> c@.len() <= u32::MAX,
        inscription.body matches Some(b) ==> b@.len() <= u32::MAX,
    ensures
        r@ == reveal_script_of(internal_key@, inscription.content_type_view(), inscription.body_view()),
{
    let mut s: Vec<u8> = Vec::new();
    if inscription.content_type.is_some() || inscription.body.is_some() {
        s.push(0x00);
        s.push(0x63);
        let tag = vec![0x6fu8, 0x72u8, 0x64u8];
        push_all(&mut s, &tag);
        assert(tag@ =~= envelope_tag());
        let ghost after_tag = s@;
        match &inscription.content_type {
            Some(c) => {
                let one = vec![1u8];
                push_all(&mut s, &one);
                push_all(&mut s, c);
                assert(s@ =~= after_tag + (push_data(seq![1u8]) + push_data(c@)));
            },
            None => {
                assert(s@ =~= after_tag + Seq::<u8>::empty());
            },
        }
        let ghost after_ct = s@;
        match &inscription.body {
            Some(b) => {
                s.push(0x00);
                push_chunked(&mut s, b);
                assert(s@ =~= after_ct + (seq![0x00u8] + chunked_pushes(b@)));
            },
            None => {
                assert(s@ =~= after_ct + Seq::<u8>::empty());
            },
        }
        s.push(0x68);
    }
    let ghost env = s@;
    assert(env =~= envelope(inscription.content_type_view(), inscription.body_view()));
    push_all(&mut s, internal_key);
    s.push(OP_CHECKSIG);
    assert(s@ =~= reveal_script_of(internal_key@, inscription.content_type_view(), inscription.body_view()));
    s
}

} // verus!
