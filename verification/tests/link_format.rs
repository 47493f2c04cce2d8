use riot_wrappers::coap_handler::v0_1::{encode, LinkAttribute, LinkEncoder, LinkRecord};

fn record(path: &[&str], rel: Option<&str>, attributes: Vec<LinkAttribute>) -> LinkRecord {
    LinkRecord {
        path: path.iter().map(|p| p.as_bytes().to_vec()).collect(),
        rel: rel.map(|r| r.as_bytes().to_vec()),
        attributes,
    }
}

#[test]
fn single_record_with_attributes() {
    let records = vec![record(
        &["sensors", "temp"],
        None,
        vec![
            LinkAttribute::Observable,
            LinkAttribute::ResourceType(b"temperature".to_vec()),
            LinkAttribute::Other,
            LinkAttribute::Interface(b"sensor".to_vec()),
        ],
    )];
    let mut writer = LinkEncoder::new();
    encode(&records, &mut writer);
    assert_eq!(
        writer.output(),
        &b"</sensors/temp>;obs;rt=\"temperature\";if=\"sensor\""[..]
    );
}

#[test]
fn records_are_separated_by_commas() {
    let records = vec![
        record(&[".well-known", "core"], None, vec![]),
        record(&["time"], Some("alternate"), vec![]),
        record(&[], None, vec![]),
    ];
    let mut writer = LinkEncoder::new();
    encode(&records, &mut writer);
    assert_eq!(
        writer.output(),
        &b"</.well-known/core>,</time>;rel=\"alternate\",<>"[..]
    );
}

#[test]
fn a_second_handler_continues_after_a_comma() {
    let mut writer = LinkEncoder::new();
    encode(&[record(&["a"], None, vec![])], &mut writer);
    encode(&[], &mut writer);
    assert_eq!(writer.output(), b"</a>");
    encode(&[record(&["b"], None, vec![])], &mut writer);
    assert_eq!(writer.output(), b"</a>,</b>");
}

#[test]
fn encoder_primitives() {
    let mut writer = LinkEncoder::new();
    writer.write_comma_maybe();
    writer.write(b"x");
    writer.write_comma_maybe();
    writer.write(b"y");
    assert_eq!(writer.output(), b"x,y");
}

#[test]
fn encoding_records_keeps_later_records_separated() {
    let mut writer = LinkEncoder::new();
    encode(&[record(&["a"], None, vec![]), record(&["b"], None, vec![])], &mut writer);
    encode(&[record(&["c"], None, vec![])], &mut writer);
    assert_eq!(writer.output(), b"</a>,</b>,</c>");
}
