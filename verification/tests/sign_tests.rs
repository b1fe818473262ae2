use mezeporta::crypto::crypto;
use mezeporta::packet::{open_packet, parse_header, payload_size, seal_packet, HEADER_LEN};
use mezeporta::sign::{
    build_sign_request, decode_sjis, encode_sjis, parse_sign_response, patch_list_readable,
};

#[test]
fn crypto_encrypt_key_0() {
    let data = vec![0x74, 0x65, 0x73, 0x74];
    let (out, cc, c0, c1, c2) = crypto(&data, 0, true, None);
    assert_eq!(out, vec![0x46, 0x53, 0x28, 0x5E]);
    assert_eq!(cc, 0x2976);
    assert_eq!(c0, 0x06ea);
    assert_eq!(c1, 0x0215);
    assert_eq!(c2, 0x8fb3);
}

#[test]
fn crypto_encrypt_key_3() {
    let data = vec![0x74, 0x65, 0x73, 0x74];
    let (out, cc, c0, c1, c2) = crypto(&data, 3, true, None);
    assert_eq!(out, vec![0x46, 0x95, 0x88, 0xEA]);
    assert_eq!(cc, 0x2ae4);
    assert_eq!(c0, 0x0a56);
    assert_eq!(c1, 0x01cd);
    assert_eq!(c2, 0x8fb3);
}

#[test]
fn crypto_encrypt_key_max() {
    let data = vec![0x74, 0x65, 0x73, 0x74];
    let (out, cc, c0, c1, c2) = crypto(&data, 0xFFFFFFFF, true, None);
    assert_eq!(out, vec![0x46, 0xB5, 0xDC, 0xB2]);
    assert_eq!(cc, 0x2add);
    assert_eq!(c0, 0x09a6);
    assert_eq!(c1, 0x021e);
    assert_eq!(c2, 0x8fb3);
}

#[test]
fn crypto_roundtrip_dsgn() {
    let data = b"DSGN:041\x00test\x00test\x00\x00";
    let (enc, _, _, _, _) = crypto(data, 995117, true, None);
    let (dec, _, _, _, _) = crypto(&enc, 995117, false, None);
    assert_eq!(dec, data.to_vec());
}

#[test]
fn crypto_roundtrip_key_rotation() {
    let data = b"DSGN:041\x00test\x00test\x00\x00";
    let rotated_key = 3u32.wrapping_mul(995117u32.wrapping_add(1));
    let (enc, _, _, _, _) = crypto(data, rotated_key, true, None);
    let (dec, _, _, _, _) = crypto(&enc, rotated_key, false, None);
    assert_eq!(dec, data.to_vec());
}

#[test]
fn encode_sjis_basic() {
    assert_eq!(encode_sjis("test"), vec![0x74, 0x65, 0x73, 0x74]);
}

#[test]
fn encode_sjis_japanese() {
    let sjis = encode_sjis("こんにちは");
    assert!(!sjis.is_empty());
    assert_eq!(decode_sjis(&sjis), "こんにちは");
}

#[test]
fn crypto_override_roundtrip_keeps_checks() {
    let data = b"hello sign server".to_vec();
    let (enc, cc, c0, c1, c2) = crypto(&data, 0, true, Some(0x42));
    let (dec, dcc, d0, d1, d2) = crypto(&enc, 0, false, Some(0x42));
    assert_eq!(dec, data);
    assert_eq!((cc, c0, c1, c2), (dcc, d0, d1, d2));
    assert_eq!(enc.len(), data.len());
}

#[test]
fn sign_request_layout() {
    let payload = build_sign_request("test", "test");
    assert_eq!(payload, b"DSGN:041\x00test\x00test\x00\x00".to_vec());
}

#[test]
fn packet_seal_then_open_roundtrip() {
    let data = build_sign_request("player", "secret");
    let mut send_key = 995117u32;
    let frame = seal_packet(&data, &mut send_key);
    assert_eq!(send_key, 3u32.wrapping_mul(995117u32.wrapping_add(1)));
    let header = parse_header(&frame[..HEADER_LEN]);
    assert_eq!(header.key_rot_delta, 3);
    assert_eq!(header.pf0, 3);
    let size = payload_size(&header);
    assert_eq!(size, data.len());
    let mut read_key = 995117u32;
    let opened = open_packet(&header, &frame[HEADER_LEN..], &mut read_key).unwrap();
    assert_eq!(opened, data);
    assert_eq!(read_key, send_key);
}

#[test]
fn packet_mismatch_is_reported() {
    let data = b"abc".to_vec();
    let mut send_key = 1u32;
    let mut frame = seal_packet(&data, &mut send_key);
    frame[HEADER_LEN + 1] ^= 0xff;
    frame[8] ^= 0x55;
    let header = parse_header(&frame[..HEADER_LEN]);
    let mut read_key = 1u32;
    let r = open_packet(&header, &frame[HEADER_LEN..], &mut read_key);
    assert_eq!(r, Err("crypto checksum mismatch — data out of sync".to_string()));
}

fn push_u32(v: &mut Vec<u8>, x: u32) {
    v.extend_from_slice(&x.to_be_bytes());
}

fn push_u16(v: &mut Vec<u8>, x: u16) {
    v.extend_from_slice(&x.to_be_bytes());
}

fn push_pascal(v: &mut Vec<u8>, s: &[u8]) {
    v.push((s.len() + 1) as u8);
    v.extend_from_slice(s);
    v.push(0);
}

fn sample_reply() -> Vec<u8> {
    let mut d = Vec::new();
    d.push(1); // result
    d.push(1); // patch servers
    d.push(1); // entrance count
    d.push(1); // characters
    push_u32(&mut d, 77); // token id
    d.extend_from_slice(b"ABCDEFGHIJKLMNOP");
    push_u32(&mut d, 1000); // current ts
    push_pascal(&mut d, b"patch.example");
    push_pascal(&mut d, b"entrance.example");
    // character record: 68 bytes
    push_u32(&mut d, 5); // id
    push_u16(&mut d, 7); // hr
    push_u16(&mut d, 3); // weapon
    push_u32(&mut d, 999); // last login
    d.push(1); // female
    d.push(0); // new
    d.push(0); // old gr
    d.push(1); // wide gr
    let mut name = b"Hunter".to_vec();
    name.resize(16, 0);
    d.extend_from_slice(&name);
    d.extend_from_slice(&[0u8; 32]);
    push_u16(&mut d, 42); // gr
    d.push(0);
    d.push(0);
    // friends
    d.push(1);
    push_u32(&mut d, 11);
    push_u32(&mut d, 22);
    push_pascal(&mut d, b"Pal");
    // guildmates
    d.push(0);
    // notice
    d.push(0);
    // last cid and rights
    push_u32(&mut d, 5);
    push_u32(&mut d, 14);
    // filters
    push_u16(&mut d, 0);
    // mez fes tail: 38 bytes
    push_u32(&mut d, 2000); // expiry
    push_u32(&mut d, 0);
    push_u32(&mut d, 9); // event id
    push_u32(&mut d, 100);
    push_u32(&mut d, 200);
    d.push(2);
    push_u32(&mut d, 4);
    push_u32(&mut d, 6);
    d.push(8);
    d.extend_from_slice(&[2, 3, 4, 5, 6, 7, 8, 9]);
    d
}

#[test]
fn sign_response_sample_parses() {
    let data = sample_reply();
    assert!(patch_list_readable(&data));
    let r = parse_sign_response(&data);
    match r {
        Ok(resp) => {
            assert_eq!(resp.current_ts, 1000);
            assert_eq!(resp.user.token_id, 77);
            assert_eq!(resp.user.token, "ABCDEFGHIJKLMNOP");
            assert_eq!(resp.entrance_count, 1);
            assert_eq!(resp.expiry_ts, 2000);
            assert_eq!(resp.characters.len(), 1);
            assert_eq!(resp.characters[0].id, 5);
            assert_eq!(resp.characters[0].name, "Hunter");
            assert_eq!(resp.characters[0].hr, 7);
            assert_eq!(resp.characters[0].weapon, 3);
            assert_eq!(resp.characters[0].gr, 42);
            assert!(resp.characters[0].is_female);
            assert_eq!(resp.friends.len(), 1);
            assert_eq!(resp.friends[0].cid, 11);
            assert_eq!(resp.friends[0].id, 22);
            assert_eq!(resp.friends[0].name, "Pal");
            assert_eq!(resp.user.rights, 14);
            let mez = resp.mez_fez.unwrap();
            assert_eq!(mez.id, 9);
            assert_eq!(mez.start, 100);
            assert_eq!(mez.end, 200);
            assert_eq!(mez.solo_tickets, 4);
            assert_eq!(mez.group_tickets, 6);
            assert_eq!(mez.stalls, vec![2, 3, 4, 5, 6, 7, 8, 9]);
        }
        Err(e) => {
            // The layout of the record must match the parser; report what it said.
            panic!("unexpected error: {}", e);
        }
    }
}

#[test]
fn sign_response_errors() {
    assert_eq!(parse_sign_response(&[]).err(), Some("empty sign response".to_string()));
    assert_eq!(parse_sign_response(&[2]).err(), Some("sign failed with code 2".to_string()));
    assert_eq!(parse_sign_response(&[1, 0]).err(), Some("truncated data".to_string()));
}

#[test]
fn patch_list_cut_short_is_detected() {
    let mut d = sample_reply();
    d.truncate(40);
    d[1] = 5;
    assert!(!patch_list_readable(&d));
}
