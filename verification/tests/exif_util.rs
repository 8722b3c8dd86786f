use album_exif::exif_util::{
    add_exif_medata, classify_latitude, classify_longitude, create_exif_latitude_tag,
    create_exif_longitude_tag, decimal_to_dms, embed_metadata, embed_step, DegreeCoordinate,
    EmbedEvent, EmbedStep, LatitudeRef, LongitudeRef, MetadataError, Rational,
};
use album_exif::fliker_config::photo_item::{Geo, PhotoItem};
use little_exif::exif_tag::ExifTag;
use little_exif::metadata::Metadata;
use little_exif::rational::uR64;

fn rational(nominator: u32, denominator: u32) -> Rational {
    Rational { nominator, denominator }
}

fn photo(description: &str, geo: Vec<Geo>) -> PhotoItem {
    PhotoItem {
        id: String::from("1"),
        name: String::from("Test Photo"),
        description: String::from(description),
        count_views: 100,
        count_faves: 50,
        count_comments: 25,
        date_taken: String::from("2023-01-01"),
        count_tags: 10,
        count_notes: 5,
        rotation: 0,
        date_imported: String::from("2023-01-02"),
        photopage: String::from("http://example.com/photo/1"),
        original: String::from("http://example.com/photo/1/original"),
        license: String::from("CC BY-SA"),
        geo,
        groups: vec![String::from("group1")],
        albums: vec![String::from("album1")],
        tags: Vec::new(),
        people: Vec::new(),
        notes: Vec::new(),
        privacy: String::from("public"),
        comment_permissions: String::from("everyone"),
        tagging_permissions: String::from("friends"),
        safety: String::from("safe"),
        comments: Vec::new(),
    }
}

fn place(latitude: i32, longitude: i32) -> Geo {
    Geo { latitude, longitude, accuracy: String::from("16") }
}

fn stored(metadata: &Metadata, tag: ExifTag) -> Option<ExifTag> {
    metadata.get_tag(&tag).next().cloned()
}

fn outside(values: &[(u32, u32)]) -> Vec<uR64> {
    values.iter().map(|v| uR64 { nominator: v.0, denominator: v.1 }).collect()
}

#[test]
fn latitude_of_new_york() {
    let (reference, triple) = create_exif_latitude_tag(40_712_812);
    assert_eq!(reference, LatitudeRef::North);
    assert_eq!(triple, vec![rational(40, 1), rational(42, 1), rational(461, 10)]);
}

#[test]
fn longitude_below_one_degree_west() {
    let (reference, triple) = create_exif_longitude_tag(-740_060);
    assert_eq!(reference, LongitudeRef::West);
    assert_eq!(triple, vec![rational(0, 1), rational(44, 1), rational(242, 10)]);
}

#[test]
fn seconds_are_cut_off_not_rounded() {
    let (_, triple) = create_exif_latitude_tag(1_499_999);
    assert_eq!(triple, vec![rational(1, 1), rational(29, 1), rational(599, 10)]);
    let dms = DegreeCoordinate { degrees: 0, minutes: 0, seconds: 29_960_000 };
    assert_eq!(dms.to_exif_format()[2], rational(299, 10));
    let dms = DegreeCoordinate { degrees: 0, minutes: 0, seconds: 29_999_999 };
    assert_eq!(dms.to_exif_format()[2], rational(299, 10));
}

#[test]
fn dms_of_known_angles() {
    assert_eq!(
        decimal_to_dms(40_712_812),
        DegreeCoordinate { degrees: 40, minutes: 42, seconds: 46_123_200 }
    );
    assert_eq!(
        decimal_to_dms(-740_060),
        DegreeCoordinate { degrees: 0, minutes: 44, seconds: 24_216_000 }
    );
    assert_eq!(
        decimal_to_dms(-33_868_820),
        DegreeCoordinate { degrees: -33, minutes: 52, seconds: 7_752_000 }
    );
    assert_eq!(decimal_to_dms(0), DegreeCoordinate { degrees: 0, minutes: 0, seconds: 0 });
    assert_eq!(
        decimal_to_dms(180_000_000),
        DegreeCoordinate { degrees: 180, minutes: 0, seconds: 0 }
    );
}

#[test]
fn dms_of_the_extremes() {
    assert_eq!(
        decimal_to_dms(i32::MIN),
        DegreeCoordinate { degrees: -2147, minutes: 29, seconds: 1_132_800 }
    );
    assert_eq!(
        decimal_to_dms(i32::MAX),
        DegreeCoordinate { degrees: 2147, minutes: 29, seconds: 1_129_200 }
    );
    let dms = DegreeCoordinate { degrees: i32::MIN, minutes: 0, seconds: 0 };
    assert_eq!(dms.to_exif_format()[0], rational(2_147_483_648, 1));
}

#[test]
fn degrees_lose_their_sign_in_the_triple() {
    let (reference, triple) = create_exif_latitude_tag(-33_868_820);
    assert_eq!(reference, LatitudeRef::South);
    assert_eq!(triple, vec![rational(33, 1), rational(52, 1), rational(77, 10)]);
}

#[test]
fn hemisphere_follows_the_sign() {
    for d in [-180_000_000, -90_000_000, -1, i32::MIN] {
        assert_eq!(classify_latitude(d), LatitudeRef::South);
        assert_eq!(classify_longitude(d), LongitudeRef::West);
    }
    for d in [0, 1, 90_000_000, 180_000_000, i32::MAX] {
        assert_eq!(classify_latitude(d), LatitudeRef::North);
        assert_eq!(classify_longitude(d), LongitudeRef::East);
    }
}

#[test]
fn zero_is_north_and_east() {
    let (latitude_ref, latitude) = create_exif_latitude_tag(0);
    let (longitude_ref, longitude) = create_exif_longitude_tag(0);
    assert_eq!(latitude_ref, LatitudeRef::North);
    assert_eq!(longitude_ref, LongitudeRef::East);
    assert_eq!(latitude, vec![rational(0, 1), rational(0, 1), rational(0, 10)]);
    assert_eq!(longitude, latitude);
}

#[test]
fn hemisphere_codes() {
    assert_eq!(LatitudeRef::North.to_string(), "N");
    assert_eq!(LatitudeRef::South.to_string(), "S");
    assert_eq!(LongitudeRef::East.to_string(), "E");
    assert_eq!(LongitudeRef::West.to_string(), "W");
}

#[test]
fn triple_rebuilds_the_angle_within_a_tenth_of_a_second() {
    let mut d: i64 = -180_000_000;
    while d <= 180_000_000 {
        let (_, triple) = create_exif_latitude_tag(d as i32);
        assert_eq!(triple.len(), 3);
        assert_eq!(triple[0].denominator, 1);
        assert_eq!(triple[1].denominator, 1);
        assert_eq!(triple[2].denominator, 10);
        assert!(triple[1].nominator < 60);
        assert!(triple[2].nominator < 600);
        let rebuilt = triple[0].nominator as i64 * 3_600_000_000
            + triple[1].nominator as i64 * 60_000_000
            + triple[2].nominator as i64 * 100_000;
        let gap = d.abs() * 3600 - rebuilt;
        assert!(0 <= gap && gap < 100_000);
        d += 7_919;
    }
}

#[test]
fn embeds_description_and_position() {
    let mut metadata = Metadata::new();
    add_exif_medata(&mut metadata, &photo("A test photo", vec![place(40_712_812, -740_060)]));
    assert_eq!(
        stored(&metadata, ExifTag::ImageDescription(String::new())),
        Some(ExifTag::ImageDescription(String::from("A test photo")))
    );
    assert_eq!(
        stored(&metadata, ExifTag::GPSLatitudeRef(String::new())),
        Some(ExifTag::GPSLatitudeRef(String::from("N")))
    );
    assert_eq!(
        stored(&metadata, ExifTag::GPSLatitude(Vec::new())),
        Some(ExifTag::GPSLatitude(outside(&[(40, 1), (42, 1), (461, 10)])))
    );
    assert_eq!(
        stored(&metadata, ExifTag::GPSLongitudeRef(String::new())),
        Some(ExifTag::GPSLongitudeRef(String::from("W")))
    );
    assert_eq!(
        stored(&metadata, ExifTag::GPSLongitude(Vec::new())),
        Some(ExifTag::GPSLongitude(outside(&[(0, 1), (44, 1), (242, 10)])))
    );
}

#[test]
fn without_a_position_only_the_description_is_written() {
    let mut metadata = Metadata::new();
    add_exif_medata(&mut metadata, &photo("No place", Vec::new()));
    assert_eq!(
        stored(&metadata, ExifTag::ImageDescription(String::new())),
        Some(ExifTag::ImageDescription(String::from("No place")))
    );
    assert_eq!(stored(&metadata, ExifTag::GPSLatitudeRef(String::new())), None);
    assert_eq!(stored(&metadata, ExifTag::GPSLatitude(Vec::new())), None);
    assert_eq!(stored(&metadata, ExifTag::GPSLongitudeRef(String::new())), None);
    assert_eq!(stored(&metadata, ExifTag::GPSLongitude(Vec::new())), None);
}

#[test]
fn only_the_first_position_is_used() {
    let mut metadata = Metadata::new();
    let item = photo("Two places", vec![place(-33_868_820, 151_209_290), place(1, 1)]);
    add_exif_medata(&mut metadata, &item);
    assert_eq!(
        stored(&metadata, ExifTag::GPSLatitudeRef(String::new())),
        Some(ExifTag::GPSLatitudeRef(String::from("S")))
    );
    assert_eq!(
        stored(&metadata, ExifTag::GPSLatitude(Vec::new())),
        Some(ExifTag::GPSLatitude(outside(&[(33, 1), (52, 1), (77, 10)])))
    );
    assert_eq!(
        stored(&metadata, ExifTag::GPSLongitudeRef(String::new())),
        Some(ExifTag::GPSLongitudeRef(String::from("E")))
    );
    assert_eq!(
        stored(&metadata, ExifTag::GPSLongitude(Vec::new())),
        Some(ExifTag::GPSLongitude(outside(&[(151, 1), (12, 1), (334, 10)])))
    );
}

#[test]
fn embedding_replaces_what_was_there_and_keeps_the_rest() {
    let mut metadata = Metadata::new();
    metadata.set_tag(ExifTag::ImageDescription(String::from("old")));
    metadata.set_tag(ExifTag::Artist(String::from("someone")));
    metadata.set_tag(ExifTag::GPSLatitudeRef(String::from("S")));
    embed_metadata(&mut metadata, "new", None);
    assert_eq!(
        stored(&metadata, ExifTag::ImageDescription(String::new())),
        Some(ExifTag::ImageDescription(String::from("new")))
    );
    assert_eq!(metadata.get_tag(&ExifTag::ImageDescription(String::new())).count(), 1);
    assert_eq!(
        stored(&metadata, ExifTag::Artist(String::new())),
        Some(ExifTag::Artist(String::from("someone")))
    );
    assert_eq!(
        stored(&metadata, ExifTag::GPSLatitudeRef(String::new())),
        Some(ExifTag::GPSLatitudeRef(String::from("S")))
    );
    embed_metadata(&mut metadata, "newer", Some((1_499_999, 0)));
    assert_eq!(
        stored(&metadata, ExifTag::ImageDescription(String::new())),
        Some(ExifTag::ImageDescription(String::from("newer")))
    );
    assert_eq!(
        stored(&metadata, ExifTag::GPSLatitudeRef(String::new())),
        Some(ExifTag::GPSLatitudeRef(String::from("N")))
    );
    assert_eq!(metadata.get_tag(&ExifTag::GPSLatitudeRef(String::new())).count(), 1);
    assert_eq!(
        stored(&metadata, ExifTag::GPSLatitude(Vec::new())),
        Some(ExifTag::GPSLatitude(outside(&[(1, 1), (29, 1), (599, 10)])))
    );
    assert_eq!(
        stored(&metadata, ExifTag::GPSLongitudeRef(String::new())),
        Some(ExifTag::GPSLongitudeRef(String::from("E")))
    );
}

#[test]
fn an_unreadable_file_is_never_written_to() {
    let step = embed_step(EmbedEvent::Started, "d", None);
    assert!(matches!(step, EmbedStep::Load));
    let step = embed_step(EmbedEvent::Loaded(None), "d", Some((1, 2)));
    assert!(matches!(step, EmbedStep::Done(Err(MetadataError::UnreadableContainer))));
}

#[test]
fn a_readable_file_gets_its_tags_and_is_written() {
    let mut before = Metadata::new();
    before.set_tag(ExifTag::ImageDescription(String::from("old")));
    match embed_step(EmbedEvent::Loaded(Some(before)), "new", Some((40_712_812, -740_060))) {
        EmbedStep::Flush(metadata) => {
            assert_eq!(
                stored(&metadata, ExifTag::ImageDescription(String::new())),
                Some(ExifTag::ImageDescription(String::from("new")))
            );
            assert_eq!(
                stored(&metadata, ExifTag::GPSLongitude(Vec::new())),
                Some(ExifTag::GPSLongitude(outside(&[(0, 1), (44, 1), (242, 10)])))
            );
        }
        _ => panic!("the block should be written next"),
    }
    match embed_step(EmbedEvent::Loaded(Some(Metadata::new())), "new", None) {
        EmbedStep::Flush(metadata) => {
            assert_eq!(
                stored(&metadata, ExifTag::ImageDescription(String::new())),
                Some(ExifTag::ImageDescription(String::from("new")))
            );
            assert_eq!(stored(&metadata, ExifTag::GPSLongitude(Vec::new())), None);
        }
        _ => panic!("the block should be written next"),
    }
}

#[test]
fn the_outcome_follows_the_write() {
    assert!(matches!(embed_step(EmbedEvent::Flushed(true), "d", None), EmbedStep::Done(Ok(()))));
    assert!(matches!(
        embed_step(EmbedEvent::Flushed(false), "d", None),
        EmbedStep::Done(Err(MetadataError::WriteFailure))
    ));
}
