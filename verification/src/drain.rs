//! A whole record as one line.

use vstd::prelude::*;
use vstd::string::*;
use crate::error::FormatError;
use crate::ser::TelegrafSocketSerializer;
use crate::value::{separator, KeyValue};

verus! {

/// The tag section: each pair after a comma, in the order given.
pub open spec fn tags_text(tags: Seq<KeyValue>) -> Seq<char>
    decreases tags.len(),
{
    if tags.len() == 0 {
        Seq::empty()
    } else {
        tags_text(tags.drop_last()) + separator(false) + tags.last().text()
    }
}

/// The field section: the pairs in the order given, with a comma between
/// two of them and none before the first.
pub open spec fn fields_text(fields: Seq<KeyValue>) -> Seq<char>
    decreases fields.len(),
{
    if fields.len() == 0 {
        Seq::empty()
    } else {
        fields_text(fields.drop_last()) + separator(fields.len() == 1) + fields.last().text()
    }
}

/// The line of a record: the measurement, the tag section, one space, the
/// field section, one line feed.
pub open spec fn line_text(
    measurement: Seq<char>,
    tags: Seq<KeyValue>,
    fields: Seq<KeyValue>,
) -> Seq<char> {
    (measurement + tags_text(tags) + seq![' '] + fields_text(fields)).push('\n')
}

/// Encodes a record: the tags are written first, then the section break,
/// then the fields, each run in the order it was handed in.
pub fn encode_record(
    measurement: &str,
    tags: &[KeyValue],
    fields: &[KeyValue],
) -> (r: Result<String, FormatError>)
    ensures
        r is Ok,
        r->Ok_0@ == line_text(measurement@, tags@, fields@),
{
    let mut serializer = TelegrafSocketSerializer::start(measurement, None)?;
    let mut tag_serializer = serializer.tag_serializer();
    let mut i: usize = 0;
    while i < tags.len()
        invariant
            i <= tags.len(),
            tag_serializer.data@ == measurement@ + tags_text(tags@.take(i as int)),
            after_borrow(serializer)@ == final(tag_serializer.data)@,
        decreases tags.len() - i,
    {
        tag_serializer.emit(tags[i].key.as_str(), &tags[i].value)?;
        proof {
            assert(tags@.take(i + 1).drop_last() =~= tags@.take(i as int));
        }
        i += 1;
    }
    proof {
        assert(tags@.take(i as int) =~= tags@);
    }
    serializer.tag_value_break()?;
    let mut field_serializer = serializer.field_serializer();
    let mut j: usize = 0;
    while j < fields.len()
        invariant
            j <= fields.len(),
            field_serializer.skip_comma == (j == 0),
            field_serializer.data@ == measurement@ + tags_text(tags@) + seq![' '] + fields_text(
                fields@.take(j as int),
            ),
            after_borrow(serializer)@ == final(field_serializer.data)@,
        decreases fields.len() - j,
    {
        field_serializer.emit(fields[j].key.as_str(), &fields[j].value)?;
        proof {
            assert(fields@.take(j + 1).drop_last() =~= fields@.take(j as int));
        }
        j += 1;
    }
    proof {
        assert(fields@.take(j as int) =~= fields@);
    }
    serializer.end(false)
}

/// A field section with a pair in it is its first pair, then every later
/// pair after a comma: no comma stands before the first.
pub proof fn lemma_fields_text_first(fields: Seq<KeyValue>)
    requires
        fields.len() > 0,
    ensures
        fields_text(fields) == fields.first().text() + tags_text(fields.drop_first()),
    decreases fields.len(),
{
    if fields.len() == 1 {
        assert(fields.drop_last() =~= Seq::<KeyValue>::empty());
        assert(fields.drop_first() =~= Seq::<KeyValue>::empty());
        assert(fields_text(fields.drop_last()) =~= Seq::<char>::empty());
        assert(fields_text(fields) =~= fields.first().text() + tags_text(fields.drop_first()));
    } else {
        let front = fields.drop_last();
        lemma_fields_text_first(front);
        assert(front.first() == fields.first());
        assert(front.drop_first() =~= fields.drop_first().drop_last());
        assert(fields.drop_first().last() == fields.last());
        assert(fields_text(fields) =~= fields.first().text() + tags_text(fields.drop_first()));
    }
}

/// A line is closed by one line feed, and one space stands between its tag
/// section and its field section, whether or not a section is empty.
pub proof fn lemma_line_shape(measurement: Seq<char>, tags: Seq<KeyValue>, fields: Seq<KeyValue>)
    ensures
        line_text(measurement, tags, fields).last() == '\n',
        line_text(measurement, tags, fields).drop_last() == measurement + tags_text(tags) + seq![
            ' ',
        ] + fields_text(fields),
        line_text(measurement, tags, fields)[(measurement + tags_text(tags)).len() as int] == ' ',
        line_text(measurement, Seq::empty(), fields) == (measurement + seq![' '] + fields_text(
            fields,
        )).push('\n'),
        line_text(measurement, tags, Seq::empty()) == (measurement + tags_text(tags)).push(
            ' ',
        ).push('\n'),
{
    assert(line_text(measurement, tags, fields).drop_last() =~= measurement + tags_text(tags)
        + seq![' '] + fields_text(fields));
    assert(line_text(measurement, Seq::empty(), fields) =~= (measurement + seq![' ']
        + fields_text(fields)).push('\n'));
    assert(line_text(measurement, tags, Seq::empty()) =~= (measurement + tags_text(tags)).push(
        ' ',
    ).push('\n'));
}

} // verus!
