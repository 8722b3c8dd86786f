//! Conversion of signed decimal coordinates into the unsigned
//! degrees / minutes / seconds rationals of the Exif GPS tags, and the
//! embedding of a description and a position into an Exif block.

use crate::fliker_config::photo_item::PhotoItem;
use little_exif::exif_tag::ExifTag;
use little_exif::metadata::Metadata;
use little_exif::rational::uR64;
use vstd::prelude::*;

verus! {

/// Hemisphere of a latitude.
#[derive(Clone, Copy, Debug, PartialEq, Eq, Structural)]
pub enum LatitudeRef {
    North,
    South,
}

/// Hemisphere of a longitude.
#[derive(Clone, Copy, Debug, PartialEq, Eq, Structural)]
pub enum LongitudeRef {
    East,
    West,
}

impl LatitudeRef {
    /// The one-letter code that the `GPSLatitudeRef` tag holds.
    pub open spec fn code(self) -> Seq<char> {
        match self {
            LatitudeRef::North => seq!['N'],
            LatitudeRef::South => seq!['S'],
        }
    }

    /// The code as an owned string.
    pub fn to_string(&self) -> (text: String)
        ensures
            text@ == self.code(),
    {
        proof {
            reveal_strlit("N");
            reveal_strlit("S");
        }
        let text = match self {
            LatitudeRef::North => "N".to_owned(),
            LatitudeRef::South => "S".to_owned(),
        };
        assert(text@ =~= self.code());
        text
    }
}

impl LongitudeRef {
    /// The one-letter code that the `GPSLongitudeRef` tag holds.
    pub open spec fn code(self) -> Seq<char> {
        match self {
            LongitudeRef::East => seq!['E'],
            LongitudeRef::West => seq!['W'],
        }
    }

    /// The code as an owned string.
    pub fn to_string(&self) -> (text: String)
        ensures
            text@ == self.code(),
    {
        proof {
            reveal_strlit("E");
            reveal_strlit("W");
        }
        let text = match self {
            LongitudeRef::East => "E".to_owned(),
            LongitudeRef::West => "W".to_owned(),
        };
        assert(text@ =~= self.code());
        text
    }
}

/// An unsigned fraction as the Exif format stores it.
#[derive(Clone, Copy, Debug, PartialEq, Eq, Structural)]
pub struct Rational {
    pub nominator: u32,
    pub denominator: u32,
}

/// An angle split into whole degrees, whole minutes and seconds.
///
/// `degrees` keeps the sign of the angle it was made from (and is 0 for any
/// angle of less than one degree, of either sign); `minutes` and `seconds`
/// describe the magnitude. `seconds` counts millionths of a second.
#[derive(Clone, Copy, Debug, PartialEq, Eq, Structural)]
pub struct DegreeCoordinate {
    pub degrees: i32,
    pub minutes: u32,
    pub seconds: u32,
}

/// Millionths in one unit: of a degree in a decimal coordinate, of a second
/// in `DegreeCoordinate::seconds`.
pub open spec fn millionths() -> int {
    1_000_000
}

/// The magnitude of a decimal coordinate, in millionths of a degree.
pub open spec fn magnitude(decimal: i32) -> int {
    if decimal < 0 {
        -(decimal as int)
    } else {
        decimal as int
    }
}

/// The part of the magnitude below one degree, in millionths of a minute.
pub open spec fn minutes_full(decimal: i32) -> int {
    (magnitude(decimal) % millionths()) * 60
}

/// The degrees, minutes and seconds of a decimal coordinate given in
/// millionths of a degree. Each step cuts off toward zero.
pub open spec fn dms_of(decimal: i32) -> DegreeCoordinate {
    let whole = magnitude(decimal) / millionths();
    DegreeCoordinate {
        degrees: (if decimal < 0 { -whole } else { whole }) as i32,
        minutes: (minutes_full(decimal) / millionths()) as u32,
        seconds: ((minutes_full(decimal) % millionths()) * 60) as u32,
    }
}

impl DegreeCoordinate {
    /// Minutes below 60 and seconds below 60, as `decimal_to_dms` makes them.
    pub open spec fn wf(self) -> bool {
        self.minutes < 60 && self.seconds < 60 * millionths()
    }

    /// The magnitude of the degrees.
    pub open spec fn degrees_magnitude(self) -> int {
        if self.degrees < 0 {
            -(self.degrees as int)
        } else {
            self.degrees as int
        }
    }

    /// The three Exif rationals of this angle: degrees over 1, minutes over
    /// 1, and tenths of a second over 10, cut off and never rounded up.
    pub open spec fn rational_triple(self) -> Seq<Rational> {
        seq![
            Rational { nominator: self.degrees_magnitude() as u32, denominator: 1 },
            Rational { nominator: self.minutes, denominator: 1 },
            Rational { nominator: (self.seconds as int / 100_000) as u32, denominator: 10 },
        ]
    }

    /// The angle as the three rationals of a GPS tag. The sign of the
    /// degrees is dropped: the hemisphere carries it.
    pub fn to_exif_format(&self) -> (triple: Vec<Rational>)
        ensures
            triple@ == self.rational_triple(),
    {
        let whole: u32 = if self.degrees >= 0 {
            self.degrees as u32
        } else {
            (-(self.degrees as i64)) as u32
        };
        let mut triple: Vec<Rational> = Vec::new();
        triple.push(Rational { nominator: whole, denominator: 1 });
        triple.push(Rational { nominator: self.minutes, denominator: 1 });
        triple.push(Rational { nominator: self.seconds / 100_000, denominator: 10 });
        assert(triple@ =~= self.rational_triple());
        triple
    }
}

/// Splits a decimal coordinate, given in millionths of a degree, into
/// degrees, minutes and seconds.
pub fn decimal_to_dms(decimal: i32) -> (dms: DegreeCoordinate)
    ensures
        dms == dms_of(decimal),
        dms.wf(),
{
    let size: i64 = if decimal < 0 {
        -(decimal as i64)
    } else {
        decimal as i64
    };
    let whole: i64 = size / 1_000_000;
    let minutes_full: i64 = (size % 1_000_000) * 60;
    let minutes: i64 = minutes_full / 1_000_000;
    let seconds: i64 = (minutes_full % 1_000_000) * 60;
    let degrees: i64 = if decimal < 0 {
        -whole
    } else {
        whole
    };
    DegreeCoordinate { degrees: degrees as i32, minutes: minutes as u32, seconds: seconds as u32 }
}

/// South for a negative latitude, North for zero and above.
pub fn classify_latitude(decimal: i32) -> (reference: LatitudeRef)
    ensures
        reference == LatitudeRef::South <==> decimal < 0,
        reference == LatitudeRef::North <==> decimal >= 0,
{
    if decimal < 0 {
        LatitudeRef::South
    } else {
        LatitudeRef::North
    }
}

/// West for a negative longitude, East for zero and above.
pub fn classify_longitude(decimal: i32) -> (reference: LongitudeRef)
    ensures
        reference == LongitudeRef::West <==> decimal < 0,
        reference == LongitudeRef::East <==> decimal >= 0,
{
    if decimal < 0 {
        LongitudeRef::West
    } else {
        LongitudeRef::East
    }
}

/// The hemisphere and the rationals of a latitude given in millionths of a
/// degree.
pub fn create_exif_latitude_tag(latitude: i32) -> (tag: (LatitudeRef, Vec<Rational>))
    ensures
        tag.0 == (if latitude < 0 { LatitudeRef::South } else { LatitudeRef::North }),
        tag.1@ == dms_of(latitude).rational_triple(),
{
    let dms = decimal_to_dms(latitude);
    (classify_latitude(latitude), dms.to_exif_format())
}

/// The hemisphere and the rationals of a longitude given in millionths of a
/// degree.
pub fn create_exif_longitude_tag(longitude: i32) -> (tag: (LongitudeRef, Vec<Rational>))
    ensures
        tag.0 == (if longitude < 0 { LongitudeRef::West } else { LongitudeRef::East }),
        tag.1@ == dms_of(longitude).rational_triple(),
{
    let dms = decimal_to_dms(longitude);
    (classify_longitude(longitude), dms.to_exif_format())
}

/// Splitting loses nothing: degrees, minutes and seconds add up to the
/// magnitude of the coordinate, here counted in millionths of a second, and
/// the degrees carry the sign of any coordinate of one degree or more.
pub proof fn lemma_dms_exact(decimal: i32)
    ensures
        dms_of(decimal).wf(),
        magnitude(decimal) * 3600 == dms_of(decimal).degrees_magnitude() * 3600 * millionths()
            + dms_of(decimal).minutes * 60 * millionths() + dms_of(decimal).seconds,
        decimal < 0 ==> dms_of(decimal).degrees <= 0,
        decimal >= 0 ==> dms_of(decimal).degrees >= 0,
{
}

/// The numerators never carry a sign, the denominators are 1, 1 and 10, and
/// minutes and whole seconds stay below 60.
pub proof fn lemma_triple_shape(decimal: i32)
    ensures
        dms_of(decimal).wf(),
        dms_of(decimal).rational_triple().len() == 3,
        dms_of(decimal).rational_triple()[0].denominator == 1,
        dms_of(decimal).rational_triple()[1].denominator == 1,
        dms_of(decimal).rational_triple()[2].denominator == 10,
        dms_of(decimal).rational_triple()[0].nominator == magnitude(decimal) / millionths(),
        dms_of(decimal).rational_triple()[1].nominator < 60,
        dms_of(decimal).rational_triple()[2].nominator < 600,
{
}

/// Putting the three rationals together again gives an angle that is never
/// above the magnitude of the coordinate and less than a tenth of a second
/// (one 36000th of a degree) below it. Both sides are counted in millionths
/// of a second, of which a degree has 3600 million.
pub proof fn lemma_reconstruction_bound(decimal: i32)
    ensures
        ({
            let triple = dms_of(decimal).rational_triple();
            let rebuilt = triple[0].nominator * 3600 * millionths()
                + triple[1].nominator * 60 * millionths()
                + triple[2].nominator * 100_000;
            0 <= magnitude(decimal) * 3600 - rebuilt < 100_000
        }),
{
}

/// The Exif block of an image, held in memory by `little_exif`.
#[verifier::external_type_specification]
#[verifier::external_body]
pub struct ExMetadata(Metadata);

/// The kinds of directory in an Exif block.
#[derive(Clone, Copy, Debug, PartialEq, Eq, Structural)]
pub enum TagGroup {
    Generic,
    Exif,
    Interop,
    Gps,
}

/// The place of a tag in an Exif block: the image whose directories it
/// stands in (0 for the first image of the file), the kind of directory,
/// and the tag's number.
#[derive(Clone, Copy, Debug, PartialEq, Eq, Structural)]
pub struct TagKey {
    pub image: u32,
    pub group: TagGroup,
    pub number: u16,
}

/// What a tag holds: a text, a list of unsigned rationals, or, for a tag of
/// any other format, the bytes of its value.
pub enum TagValue {
    Text(Seq<char>),
    Rationals(Seq<Rational>),
    Other(Seq<u8>),
}

/// The five tags that this library writes.
#[derive(Clone, Copy, Debug, PartialEq, Eq, Structural)]
pub enum FieldKey {
    ImageDescription,
    GPSLatitudeRef,
    GPSLatitude,
    GPSLongitudeRef,
    GPSLongitude,
}

impl FieldKey {
    /// Where the tag stands: the description in the main directory of the
    /// first image, the rest in its GPS directory.
    pub open spec fn place(self) -> TagKey {
        match self {
            FieldKey::ImageDescription => TagKey {
                image: 0,
                group: TagGroup::Generic,
                number: 0x010e,
            },
            FieldKey::GPSLatitudeRef => TagKey { image: 0, group: TagGroup::Gps, number: 0x0001 },
            FieldKey::GPSLatitude => TagKey { image: 0, group: TagGroup::Gps, number: 0x0002 },
            FieldKey::GPSLongitudeRef => TagKey { image: 0, group: TagGroup::Gps, number: 0x0003 },
            FieldKey::GPSLongitude => TagKey { image: 0, group: TagGroup::Gps, number: 0x0004 },
        }
    }
}

/// A tag together with the value to store under it.
#[derive(Debug)]
pub enum ExifField {
    ImageDescription(String),
    GPSLatitudeRef(String),
    GPSLatitude(Vec<Rational>),
    GPSLongitudeRef(String),
    GPSLongitude(Vec<Rational>),
}

impl ExifField {
    /// Which of the five tags this is.
    pub open spec fn key(self) -> FieldKey {
        match self {
            ExifField::ImageDescription(_) => FieldKey::ImageDescription,
            ExifField::GPSLatitudeRef(_) => FieldKey::GPSLatitudeRef,
            ExifField::GPSLatitude(_) => FieldKey::GPSLatitude,
            ExifField::GPSLongitudeRef(_) => FieldKey::GPSLongitudeRef,
            ExifField::GPSLongitude(_) => FieldKey::GPSLongitude,
        }
    }

    /// What is stored under the tag.
    pub open spec fn value(self) -> TagValue {
        match self {
            ExifField::ImageDescription(text) => TagValue::Text(text@),
            ExifField::GPSLatitudeRef(text) => TagValue::Text(text@),
            ExifField::GPSLatitude(triple) => TagValue::Rationals(triple@),
            ExifField::GPSLongitudeRef(text) => TagValue::Text(text@),
            ExifField::GPSLongitude(triple) => TagValue::Rationals(triple@),
        }
    }
}

/// The tags of an Exif block: for every place at which the block holds a
/// tag, the value of the tag there (of the first, should a directory hold a
/// number twice).
pub uninterp spec fn tags(metadata: Metadata) -> Map<TagKey, TagValue>;

/// `Metadata::set_tag`. It looks up the directory of the tag's group for
/// the first image and creates it, empty, where there is none; in that
/// directory it drops every tag of the same number, adds the new one and
/// sorts the tags by number, keeping the others as they were. No other
/// directory changes. So the block holds the new value at the tag's place,
/// and at every other place what it held before.
#[verifier::external_body]
fn set_tag(metadata: &mut Metadata, field: &ExifField)
    ensures
        tags(*final(metadata)) == tags(*old(metadata)).insert(
            field.key().place(),
            field.value(),
        ),
{
    let list = |v: &Vec<Rational>| -> Vec<uR64> {
        v.iter().map(|r| uR64 { nominator: r.nominator, denominator: r.denominator }).collect()
    };
    metadata.set_tag(match field {
        ExifField::ImageDescription(text) => ExifTag::ImageDescription(text.clone()),
        ExifField::GPSLatitudeRef(text) => ExifTag::GPSLatitudeRef(text.clone()),
        ExifField::GPSLatitude(triple) => ExifTag::GPSLatitude(list(triple)),
        ExifField::GPSLongitudeRef(text) => ExifTag::GPSLongitudeRef(text.clone()),
        ExifField::GPSLongitude(triple) => ExifTag::GPSLongitude(list(triple)),
    });
}

/// The tags of a block after a description and, where there is one, a
/// position have been embedded. Without a position nothing but the
/// description changes.
pub open spec fn embedded(
    before: Map<TagKey, TagValue>,
    description: Seq<char>,
    geo: Option<(i32, i32)>,
) -> Map<TagKey, TagValue> {
    let described = before.insert(
        FieldKey::ImageDescription.place(),
        TagValue::Text(description),
    );
    match geo {
        None => described,
        Some((latitude, longitude)) => described.insert(
            FieldKey::GPSLatitudeRef.place(),
            TagValue::Text(
                (if latitude < 0 {
                    LatitudeRef::South
                } else {
                    LatitudeRef::North
                }).code(),
            ),
        ).insert(
            FieldKey::GPSLatitude.place(),
            TagValue::Rationals(dms_of(latitude).rational_triple()),
        ).insert(
            FieldKey::GPSLongitudeRef.place(),
            TagValue::Text(
                (if longitude < 0 {
                    LongitudeRef::West
                } else {
                    LongitudeRef::East
                }).code(),
            ),
        ).insert(
            FieldKey::GPSLongitude.place(),
            TagValue::Rationals(dms_of(longitude).rational_triple()),
        ),
    }
}

/// Sets the description and, where a position (latitude, longitude; both in
/// millionths of a degree) is given, the four GPS tags. Every other tag of
/// the block stays as it is.
pub fn embed_metadata(metadata: &mut Metadata, description: &str, geo: Option<(i32, i32)>)
    ensures
        tags(*final(metadata)) == embedded(tags(*old(metadata)), description@, geo),
{
    set_tag(metadata, &ExifField::ImageDescription(description.to_owned()));
    match geo {
        None => {},
        Some((latitude, longitude)) => {
            let (latitude_ref, latitude_value) = create_exif_latitude_tag(latitude);
            let (longitude_ref, longitude_value) = create_exif_longitude_tag(longitude);
            set_tag(metadata, &ExifField::GPSLatitudeRef(latitude_ref.to_string()));
            set_tag(metadata, &ExifField::GPSLatitude(latitude_value));
            set_tag(metadata, &ExifField::GPSLongitudeRef(longitude_ref.to_string()));
            set_tag(metadata, &ExifField::GPSLongitude(longitude_value));
        },
    }
}

/// Embeds what the catalog knows of a photo: its description and the first
/// of its positions.
pub fn add_exif_medata(metadata: &mut Metadata, image_medatada: &PhotoItem)
    ensures
        tags(*final(metadata)) == embedded(
            tags(*old(metadata)),
            image_medatada.description@,
            image_medatada.position(),
        ),
{
    let geo = image_medatada.first_position();
    embed_metadata(metadata, image_medatada.description.as_str(), geo);
}

/// `key` is the place of one of the four GPS tags.
pub open spec fn is_gps_place(key: TagKey) -> bool {
    key == FieldKey::GPSLatitudeRef.place() || key == FieldKey::GPSLatitude.place() || key
        == FieldKey::GPSLongitudeRef.place() || key == FieldKey::GPSLongitude.place()
}

/// Embedding always leaves the given description in place. Without a
/// position every other tag is as before, so a block that had no GPS tags
/// has none afterwards. With a position the four GPS tags are present, and
/// every tag but these five is as before.
pub proof fn lemma_embedded_tags(
    before: Map<TagKey, TagValue>,
    description: Seq<char>,
    geo: Option<(i32, i32)>,
)
    ensures
        embedded(before, description, geo).contains_key(FieldKey::ImageDescription.place()),
        embedded(before, description, geo)[FieldKey::ImageDescription.place()] == TagValue::Text(
            description,
        ),
        forall|key: TagKey|
            key != FieldKey::ImageDescription.place() && !(geo is Some && is_gps_place(key)) ==> (
            #[trigger] embedded(before, description, geo).contains_key(key)
                == before.contains_key(key)) && embedded(before, description, geo)[key]
                == before[key],
        geo is Some ==> forall|key: TagKey|
            is_gps_place(key) ==> #[trigger] embedded(before, description, geo).contains_key(key),
{
}

/// Why embedding into an image file failed.
#[derive(Clone, Copy, Debug, PartialEq, Eq, Structural)]
pub enum MetadataError {
    /// The file holds no Exif block that can be found and read.
    UnreadableContainer,
    /// The changed block could not be written back to the file.
    WriteFailure,
}

/// What has just happened to the file that is being worked on.
pub enum EmbedEvent {
    /// Nothing yet.
    Started,
    /// The file was read: its Exif block, or `None` where none could be
    /// read.
    Loaded(Option<Metadata>),
    /// The block was handed to the file: `true` if it was written.
    Flushed(bool),
}

/// What to do with the file next.
pub enum EmbedStep {
    /// Read the Exif block of the file.
    Load,
    /// Write this block to the file, in place of the one it has.
    Flush(Metadata),
    /// Nothing more: this is the outcome.
    Done(Result<(), MetadataError>),
}

/// The next step of embedding a description and a position into one file.
///
/// The file is read first. If that fails, the outcome is
/// `UnreadableContainer` and the file is never written to. Else the tags
/// are set in the block that was read, and the block goes back to the file;
/// the outcome is `WriteFailure` if that fails, success if not.
pub fn embed_step(event: EmbedEvent, description: &str, geo: Option<(i32, i32)>) -> (step:
    EmbedStep)
    ensures
        match event {
            EmbedEvent::Started => step is Load,
            EmbedEvent::Loaded(None) => step == EmbedStep::Done(
                Err(MetadataError::UnreadableContainer),
            ),
            EmbedEvent::Loaded(Some(before)) => step is Flush && tags(step->Flush_0)
                == embedded(tags(before), description@, geo),
            EmbedEvent::Flushed(true) => step == EmbedStep::Done(Ok(())),
            EmbedEvent::Flushed(false) => step == EmbedStep::Done(
                Err(MetadataError::WriteFailure),
            ),
        },
{
    match event {
        EmbedEvent::Started => EmbedStep::Load,
        EmbedEvent::Loaded(None) => EmbedStep::Done(Err(MetadataError::UnreadableContainer)),
        EmbedEvent::Loaded(Some(container)) => {
            let mut metadata = container;
            embed_metadata(&mut metadata, description, geo);
            EmbedStep::Flush(metadata)
        },
        EmbedEvent::Flushed(true) => EmbedStep::Done(Ok(())),
        EmbedEvent::Flushed(false) => EmbedStep::Done(Err(MetadataError::WriteFailure)),
    }
}

} // verus!
