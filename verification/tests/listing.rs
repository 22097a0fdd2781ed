use omd_transfer::{listing_url, order_url, parse_listing, Error, Timestamp, Walk};

const ROOT: &str = "VER_100\r\n/DCIM,100OLYMP,0,16,18587,40165\r\n/DCIM,INDEX.TXT,12,0,18587,40165\r\n/DCIM,101OLYMP,0,16,18587,40167\r\n";
const FIRST: &str = "VER_100\r\n/DCIM/100OLYMP,P4270171.ORF,14845727,0,18587,40165\r\n/DCIM/100OLYMP,P4270171.JPG,7935748,0,18587,40165\r\n";
const SECOND: &str = "VER_100\r\n/DCIM/101OLYMP,P4270172.ORF,14877614,0,18587,40167\r\n";

#[test]
fn listing_is_read_row_by_row() {
    let items = parse_listing(FIRST).unwrap();
    assert_eq!(items.len(), 2);
    assert_eq!(items[0].parent, "/DCIM/100OLYMP");
    assert_eq!(items[0].filename, "P4270171.ORF");
    assert_eq!(items[0].file_size, 14845727);
    assert_eq!(items[0].date, Timestamp::new(2016, 4, 27, 19, 39, 10).unwrap());
    assert_eq!(items[1].filename, "P4270171.JPG");
    assert_eq!(items[1].file_size, 7935748);
}

#[test]
fn listing_without_entries_is_empty() {
    assert_eq!(parse_listing("VER_100").unwrap().len(), 0);
    assert_eq!(parse_listing("VER_100\r\n").unwrap().len(), 0);
    assert_eq!(parse_listing("VER_100\r\n\r\n\r\n").unwrap().len(), 0);
}

#[test]
fn empty_records_are_passed_over() {
    let body = "VER_100\r\n\r\n/DCIM/100OLYMP,P4270171.ORF,14845727,0,18587,40165\r\n\r\n/DCIM/100OLYMP,P4270171.JPG,7935748,0,18587,40165";
    assert_eq!(parse_listing(body).unwrap().len(), 2);
}

#[test]
fn listing_must_begin_with_the_version_token() {
    for body in [
        "",
        "VER_101\r\n",
        "ver_100\r\n",
        " VER_100\r\n",
        "VER_1000\r\n",
        "VER_100 \r\n",
        "VER_100\n/DCIM/100OLYMP,P4270171.ORF,14845727,0,18587,40165\n",
        "\r\nVER_100\r\n",
        "<html>busy</html>",
        "/DCIM/100OLYMP,P4270171.ORF,14845727,0,18587,40165\r\nVER_100\r\n",
    ] {
        assert_eq!(parse_listing(body), Err(Error::ProtocolError), "{:?}", body);
    }
}

#[test]
fn one_bad_record_spoils_the_listing() {
    let body = "VER_100\r\n/DCIM/100OLYMP,P4270171.ORF,14845727,0,18587,40165\r\n/DCIM/100OLYMP,P4270171.JPG,big,0,18587,40165\r\n";
    assert_eq!(parse_listing(body), Err(Error::ProtocolError));
    assert_eq!(parse_listing("VER_100\r\nnonsense\r\n"), Err(Error::ProtocolError));
}

#[test]
fn listing_addresses_are_built_from_the_base() {
    assert_eq!(listing_url("/DCIM"), "http://192.168.0.10/get_imglist.cgi?DIR=/DCIM");
    assert_eq!(listing_url("/DCIM/100OLYMP"), "http://192.168.0.10/get_imglist.cgi?DIR=/DCIM/100OLYMP");
    assert_eq!(order_url(), "http://192.168.0.10/get_rsvimglist.cgi");
}

#[test]
fn walk_goes_through_directories_depth_first() {
    let mut walk = Walk::new();
    assert!(!walk.is_done());
    assert_eq!(walk.request().unwrap(), "http://192.168.0.10/get_imglist.cgi?DIR=/DCIM");
    walk.listed(ROOT).unwrap();
    assert_eq!(walk.request().unwrap(), "http://192.168.0.10/get_imglist.cgi?DIR=/DCIM/100OLYMP");
    walk.listed(FIRST).unwrap();
    assert_eq!(walk.request().unwrap(), "http://192.168.0.10/get_imglist.cgi?DIR=/DCIM/101OLYMP");
    walk.listed(SECOND).unwrap();
    assert!(walk.is_done());
    assert_eq!(walk.request(), None);
    let files = walk.into_files();
    let names: Vec<&str> = files.iter().map(|f| f.filename.as_str()).collect();
    assert_eq!(names, vec!["P4270171.ORF", "P4270171.JPG", "INDEX.TXT", "P4270172.ORF"]);
}

#[test]
fn walk_descends_before_it_goes_on() {
    let root = "VER_100\r\n/DCIM,A.TXT,1,0,18587,40165\r\n/DCIM,100OLYMP,0,16,18587,40165\r\n/DCIM,B.TXT,1,0,18587,40165\r\n";
    let outer = "VER_100\r\n/DCIM/100OLYMP,C.TXT,1,0,18587,40165\r\n/DCIM/100OLYMP,200INNER,0,16,18587,40165\r\n/DCIM/100OLYMP,D.TXT,1,0,18587,40165\r\n";
    let inner = "VER_100\r\n/DCIM/100OLYMP/200INNER,E.TXT,1,0,18587,40165\r\n";
    let mut walk = Walk::new();
    walk.listed(root).unwrap();
    assert_eq!(walk.request().unwrap(), "http://192.168.0.10/get_imglist.cgi?DIR=/DCIM/100OLYMP");
    walk.listed(outer).unwrap();
    assert_eq!(
        walk.request().unwrap(),
        "http://192.168.0.10/get_imglist.cgi?DIR=/DCIM/100OLYMP/200INNER"
    );
    walk.listed(inner).unwrap();
    assert!(walk.is_done());
    let files = walk.into_files();
    let names: Vec<&str> = files.iter().map(|f| f.filename.as_str()).collect();
    assert_eq!(names, vec!["A.TXT", "C.TXT", "E.TXT", "D.TXT", "B.TXT"]);
}

#[test]
fn walk_over_an_empty_camera_finds_nothing() {
    let mut walk = Walk::new();
    walk.listed("VER_100\r\n").unwrap();
    assert!(walk.is_done());
    assert_eq!(walk.into_files().len(), 0);
}

#[test]
fn walk_keeps_its_place_when_a_listing_is_bad() {
    let mut walk = Walk::new();
    walk.listed(ROOT).unwrap();
    assert_eq!(walk.listed("VER_200\r\n"), Err(Error::ProtocolError));
    assert_eq!(walk.request().unwrap(), "http://192.168.0.10/get_imglist.cgi?DIR=/DCIM/100OLYMP");
    walk.listed(FIRST).unwrap();
    walk.listed(SECOND).unwrap();
    assert_eq!(walk.into_files().len(), 4);
}
