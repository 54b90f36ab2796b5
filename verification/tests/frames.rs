use bytes::BytesMut;
use pg_extended_query::error::Error;
use pg_extended_query::prepare::encode;
use pg_extended_query::query::encode_bind;
use pg_extended_query::query::encode_portal;
use pg_extended_query::query::encode_txt;
use pg_extended_query::statement::Statement;
use pg_extended_query::types::Format;
use pg_extended_query::types::Type;
use pg_extended_query::wire::Param;

struct Dice(u64);

impl Dice {
    fn roll(&mut self, sides: u64) -> u64 {
        self.0 = self.0.wrapping_mul(6364136223846793005).wrapping_add(1442695040888963407);
        (self.0 >> 33) % sides
    }

    fn text(&mut self) -> String {
        let alphabet = ['a', 'Z', '0', ' ', '$', '\u{e9}', '\u{20ac}', '\u{1f600}', '\u{7f}', '\u{1}'];
        let mut out = String::new();
        for _ in 0..self.roll(6) {
            out.push(alphabet[self.roll(alphabet.len() as u64) as usize]);
        }
        if self.roll(5) == 0 {
            let at = self.roll(out.chars().count() as u64 + 1) as usize;
            let mut with: String = out.chars().take(at).collect();
            with.push('\0');
            with.extend(out.chars().skip(at));
            out = with;
        }
        out
    }

    fn bytes(&mut self) -> Vec<u8> {
        (0..self.roll(5)).map(|_| self.roll(256) as u8).collect()
    }
}

fn cstr(text: &str) -> Option<Vec<u8>> {
    if text.as_bytes().contains(&0) {
        return None;
    }
    let mut out = text.as_bytes().to_vec();
    out.push(0);
    Some(out)
}

fn framed(tag: u8, body: &[u8]) -> Vec<u8> {
    let mut out = vec![tag];
    out.extend_from_slice(&((body.len() + 4) as u32).to_be_bytes());
    out.extend_from_slice(body);
    out
}

fn parse_frame(name: &str, query: &str, types: &[u32]) -> Option<Vec<u8>> {
    let mut body = cstr(name)?;
    body.extend_from_slice(&cstr(query)?);
    body.extend_from_slice(&(types.len() as u16).to_be_bytes());
    for oid in types {
        body.extend_from_slice(&oid.to_be_bytes());
    }
    Some(framed(b'P', &body))
}

fn named_frame(tag: u8, name: &str) -> Option<Vec<u8>> {
    let mut body = vec![b'S'];
    body.extend_from_slice(&cstr(name)?);
    Some(framed(tag, &body))
}

fn execute_frame(portal: &str, max_rows: i32) -> Option<Vec<u8>> {
    let mut body = cstr(portal)?;
    body.extend_from_slice(&max_rows.to_be_bytes());
    Some(framed(b'E', &body))
}

fn bind_frame(
    portal: &str,
    statement: &str,
    formats: &[i16],
    values: &[Result<Option<Vec<u8>>, String>],
    result_format: i16,
) -> Result<Vec<u8>, Error> {
    let mut body = cstr(portal).ok_or(Error::Encode)?;
    body.extend_from_slice(&cstr(statement).ok_or(Error::Encode)?);
    body.extend_from_slice(&(formats.len() as u16).to_be_bytes());
    for format in formats {
        body.extend_from_slice(&format.to_be_bytes());
    }
    body.extend_from_slice(&(values.len() as u16).to_be_bytes());
    for (index, value) in values.iter().enumerate() {
        match value {
            Ok(Some(bytes)) => {
                body.extend_from_slice(&(bytes.len() as i32).to_be_bytes());
                body.extend_from_slice(bytes);
            }
            Ok(None) => body.extend_from_slice(&(-1i32).to_be_bytes()),
            Err(_) => return Err(Error::ToSql(index)),
        }
    }
    body.extend_from_slice(&1u16.to_be_bytes());
    body.extend_from_slice(&result_format.to_be_bytes());
    Ok(framed(b'B', &body))
}

const SYNC: [u8; 5] = [b'S', 0, 0, 0, 4];

#[test]
fn prepare_requests_are_parse_describe_sync() {
    let mut dice = Dice(1);
    let mut refused = 0;
    for _ in 0..3000 {
        let name = dice.text();
        let query = dice.text();
        let oids: Vec<u32> = (0..dice.roll(4)).map(|_| dice.roll(1 << 32) as u32).collect();
        let types: Vec<Type> = oids.iter().map(|oid| Type { oid: *oid }).collect();
        let held = dice.bytes();
        let mut buf = BytesMut::from(&held[..]);
        let got = encode(&name, &query, &types, &mut buf);
        assert!(buf.is_empty());
        match (parse_frame(&name, &query, &oids), named_frame(b'D', &name)) {
            (Some(parse), Some(describe)) => {
                let mut expected = held.clone();
                expected.extend_from_slice(&parse);
                expected.extend_from_slice(&describe);
                expected.extend_from_slice(&SYNC);
                assert_eq!(&got.unwrap()[..], &expected[..]);
            }
            _ => {
                refused += 1;
                assert_eq!(got.unwrap_err(), Error::Encode);
            }
        }
    }
    assert!(refused > 100);
}

#[test]
fn bind_frames_are_what_the_parameters_say() {
    let mut dice = Dice(2);
    let (mut built, mut conversions, mut encodings, mut counts) = (0, 0, 0, 0);
    for _ in 0..4000 {
        let portal = if dice.roll(8) == 0 { dice.text() } else { "c".to_string() };
        let name = if dice.roll(8) == 0 { dice.text() } else { "s1".to_string() };
        let declared = dice.roll(5) as usize;
        let given = if dice.roll(6) == 0 { dice.roll(5) as usize } else { declared };
        let statement = Statement::named(name.clone(), vec![Type { oid: 23 }; declared], vec![]);
        let mut params = Vec::new();
        for _ in 0..given {
            let format = if dice.roll(2) == 0 { Format::Text } else { Format::Binary };
            let value = match dice.roll(6) {
                0 => Err("cannot be converted".to_string()),
                1 => Ok(None),
                _ => Ok(Some(dice.bytes())),
            };
            params.push(Param { format, value });
        }
        let held = dice.bytes();
        let mut buf = BytesMut::from(&held[..]);
        let got = encode_bind(&statement, &params, &portal, &mut buf);
        if given != declared {
            counts += 1;
            assert_eq!(got, Err(Error::Parameters { given, expected: declared }));
            assert_eq!(&buf[..], &held[..]);
            continue;
        }
        let formats: Vec<i16> = params.iter().map(|p| p.format.code()).collect();
        let values: Vec<Result<Option<Vec<u8>>, String>> =
            params.iter().map(|p| p.value.clone()).collect();
        match bind_frame(&portal, &name, &formats, &values, 1) {
            Ok(frame) => {
                built += 1;
                assert_eq!(got, Ok(()));
                let mut expected = held.clone();
                expected.extend_from_slice(&frame);
                assert_eq!(&buf[..], &expected[..]);
            }
            Err(e) => {
                match e {
                    Error::ToSql(_) => conversions += 1,
                    _ => encodings += 1,
                }
                assert_eq!(got, Err(e));
            }
        }
    }
    assert!(built > 500 && conversions > 100 && encodings > 100 && counts > 100);
}

#[test]
fn text_requests_are_parse_bind_describe_execute_sync() {
    let mut dice = Dice(3);
    let mut refused = 0;
    for _ in 0..3000 {
        let query = dice.text();
        let params: Vec<Option<String>> = (0..dice.roll(4))
            .map(|_| if dice.roll(3) == 0 { None } else { Some(dice.text()) })
            .collect();
        let values: Vec<Result<Option<Vec<u8>>, String>> =
            params.iter().map(|p| Ok(p.as_ref().map(|text| text.as_bytes().to_vec()))).collect();
        let mut buf = BytesMut::new();
        let got = encode_txt(&query, &params, &mut buf);
        assert!(buf.is_empty());
        match parse_frame("", &query, &[]) {
            Some(parse) => {
                let mut expected = parse;
                expected.extend_from_slice(&bind_frame("", "", &[], &values, 0).unwrap());
                expected.extend_from_slice(&named_frame(b'D', "").unwrap());
                expected.extend_from_slice(&execute_frame("", 0).unwrap());
                expected.extend_from_slice(&SYNC);
                assert_eq!(&got.unwrap()[..], &expected[..]);
            }
            None => {
                refused += 1;
                assert_eq!(got.unwrap_err(), Error::Encode);
            }
        }
    }
    assert!(refused > 100);
}

#[test]
fn portal_and_close_requests_are_one_frame_and_sync() {
    let mut dice = Dice(4);
    let mut refused = 0;
    for _ in 0..3000 {
        let name = dice.text();
        let max_rows = dice.roll(1 << 32) as u32 as i32;
        let mut buf = BytesMut::new();
        let got = encode_portal(&name, max_rows, &mut buf);
        match execute_frame(&name, max_rows) {
            Some(mut expected) => {
                expected.extend_from_slice(&SYNC);
                assert_eq!(&got.unwrap()[..], &expected[..]);
            }
            None => {
                refused += 1;
                assert_eq!(got.unwrap_err(), Error::Encode);
            }
        }
        let statement = Statement::named(name.clone(), vec![], vec![]);
        let got = statement.close_request(true, &mut buf);
        match named_frame(b'C', &name) {
            Some(mut expected) => {
                expected.extend_from_slice(&SYNC);
                assert_eq!(&got.unwrap()[..], &expected[..]);
            }
            None => assert!(got.is_none()),
        }
        assert!(buf.is_empty());
    }
    assert!(refused > 100);
}
