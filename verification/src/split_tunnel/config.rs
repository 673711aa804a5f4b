//! The wire image of the driver's process configuration.
//!
//! The image is a header, one entry per application, and a region that holds
//! every image path as UTF-16 code units, packed without separators or
//! terminators. All integers are little-endian; a word is eight bytes wide.
//!
//! ```text
//! Header { num_entries: word, total_length: word }
//! Entry  { name_offset: word, name_length: u16, 6 bytes of padding }
//! ```

use vstd::bytes::*;
use vstd::prelude::*;
use vstd::slice::slice_subrange;

verus! {

/// Size in bytes of the header.
pub const HEADER_SIZE: usize = 16;

/// Size in bytes of one entry, padding included.
pub const ENTRY_SIZE: usize = 16;

/// The largest number of code units a single path may have: its byte length
/// has to fit the entry's 16-bit length field.
pub const MAX_PATH_UNITS: usize = 32767;

/// The two bytes of one UTF-16 code unit, low byte first.
pub open spec fn unit_bytes(unit: u16) -> Seq<u8> {
    seq![(unit % 256) as u8, (unit / 256) as u8]
}

/// The code unit that two bytes stand for, low byte first.
pub open spec fn unit_from_bytes(low: u8, high: u8) -> u16 {
    (low + 256 * high) as u16
}

/// The bytes of the first `count` code units of `path`.
pub open spec fn path_bytes(path: Seq<u16>, count: nat) -> Seq<u8>
    decreases count,
{
    if count == 0 {
        Seq::empty()
    } else {
        path_bytes(path, (count - 1) as nat) + unit_bytes(path[count - 1])
    }
}

/// Byte length of a path in the strings region.
pub open spec fn name_length(path: Seq<u16>) -> nat {
    2 * path.len()
}

/// Byte offset, within the strings region, of the path with index `index`:
/// the byte lengths of all paths before it.
pub open spec fn name_offset(paths: Seq<Seq<u16>>, index: nat) -> nat
    decreases index,
{
    if index == 0 {
        0
    } else {
        name_offset(paths, (index - 1) as nat) + name_length(paths[index - 1])
    }
}

/// Byte length of the whole strings region.
pub open spec fn total_string_size(paths: Seq<Seq<u16>>) -> nat {
    name_offset(paths, paths.len())
}

/// Byte length of the whole image.
pub open spec fn total_length(paths: Seq<Seq<u16>>) -> nat {
    HEADER_SIZE as nat + ENTRY_SIZE as nat * paths.len() + total_string_size(paths)
}

/// Whether `paths` has an image: every path's byte length fits the 16-bit
/// length field, and the image's length fits a `usize`.
pub open spec fn encodable(paths: Seq<Seq<u16>>) -> bool {
    &&& forall|i: int| 0 <= i < paths.len() ==> (#[trigger] paths[i]).len() <= MAX_PATH_UNITS
    &&& total_length(paths) <= usize::MAX
}

/// The header: number of entries, then the total length.
pub open spec fn header_bytes(paths: Seq<Seq<u16>>) -> Seq<u8> {
    spec_u64_to_le_bytes(paths.len() as u64) + spec_u64_to_le_bytes(total_length(paths) as u64)
}

/// One entry: the offset, the length, and six zero bytes of padding.
pub open spec fn entry_bytes(offset: nat, length: nat) -> Seq<u8> {
    spec_u64_to_le_bytes(offset as u64) + unit_bytes(length as u16)
        + seq![0u8, 0u8, 0u8, 0u8, 0u8, 0u8]
}

/// The first `count` entries.
pub open spec fn entries_bytes(paths: Seq<Seq<u16>>, count: nat) -> Seq<u8>
    decreases count,
{
    if count == 0 {
        Seq::empty()
    } else {
        entries_bytes(paths, (count - 1) as nat) + entry_bytes(
            name_offset(paths, (count - 1) as nat),
            name_length(paths[count - 1]),
        )
    }
}

/// The strings region of the first `count` paths.
pub open spec fn strings_bytes(paths: Seq<Seq<u16>>, count: nat) -> Seq<u8>
    decreases count,
{
    if count == 0 {
        Seq::empty()
    } else {
        strings_bytes(paths, (count - 1) as nat) + path_bytes(
            paths[count - 1],
            paths[count - 1].len(),
        )
    }
}

/// The image of `paths`: header, entries, strings.
pub open spec fn process_config(paths: Seq<Seq<u16>>) -> Seq<u8> {
    header_bytes(paths) + entries_bytes(paths, paths.len()) + strings_bytes(paths, paths.len())
}

/// The paths as sequences of code units.
pub open spec fn paths_view(paths: Seq<Vec<u16>>) -> Seq<Seq<u16>> {
    paths.map_values(|path: Vec<u16>| path@)
}

/// A later path starts no earlier than an earlier one.
proof fn lemma_name_offset_monotonic(paths: Seq<Seq<u16>>, i: nat, j: nat)
    requires
        i <= j,
    ensures
        name_offset(paths, i) <= name_offset(paths, j),
    decreases j,
{
    if i < j {
        lemma_name_offset_monotonic(paths, i, (j - 1) as nat);
    }
}

/// Every code unit takes two bytes.
proof fn lemma_path_bytes_len(path: Seq<u16>, count: nat)
    ensures
        path_bytes(path, count).len() == 2 * count,
    decreases count,
{
    if count > 0 {
        lemma_path_bytes_len(path, (count - 1) as nat);
    }
}

/// Every entry takes `ENTRY_SIZE` bytes.
proof fn lemma_entries_bytes_len(paths: Seq<Seq<u16>>, count: nat)
    ensures
        entries_bytes(paths, count).len() == ENTRY_SIZE * count,
    decreases count,
{
    lemma_auto_spec_u64_to_from_le_bytes();
    if count > 0 {
        lemma_entries_bytes_len(paths, (count - 1) as nat);
    }
}

/// The strings region of the first paths ends where the next path starts.
proof fn lemma_strings_bytes_len(paths: Seq<Seq<u16>>, count: nat)
    requires
        count <= paths.len(),
    ensures
        strings_bytes(paths, count).len() == name_offset(paths, count),
    decreases count,
{
    if count > 0 {
        lemma_strings_bytes_len(paths, (count - 1) as nat);
        lemma_path_bytes_len(paths[count - 1], paths[count - 1].len());
    }
}

/// The image is exactly as long as its header says.
proof fn lemma_process_config_len(paths: Seq<Seq<u16>>)
    ensures
        process_config(paths).len() == total_length(paths),
{
    lemma_auto_spec_u64_to_from_le_bytes();
    lemma_entries_bytes_len(paths, paths.len());
    lemma_strings_bytes_len(paths, paths.len());
}

/// Appends a word.
fn push_word(buffer: &mut Vec<u8>, value: u64)
    ensures
        final(buffer)@ == old(buffer)@ + spec_u64_to_le_bytes(value),
{
    let bytes = u64_to_le_bytes(value);
    let ghost before = buffer@;
    let mut i: usize = 0;
    while i < 8
        invariant
            i <= 8,
            bytes@.len() == 8,
            buffer@ == before + bytes@.subrange(0, i as int),
        decreases 8 - i,
    {
        buffer.push(bytes[i]);
        i += 1;
    }
    assert(bytes@.subrange(0, 8) == bytes@);
}

/// Appends a 16-bit value, low byte first.
fn push_unit(buffer: &mut Vec<u8>, unit: u16)
    ensures
        final(buffer)@ == old(buffer)@ + unit_bytes(unit),
{
    buffer.push((unit % 256) as u8);
    buffer.push((unit / 256) as u8);
}

/// Byte length of the strings region of `paths`, or `None` where a path is
/// too long for its entry or the image would not fit a `usize`.
pub fn checked_total_string_size(paths: &Vec<Vec<u16>>) -> (size: Option<usize>)
    ensures
        size.is_some() == encodable(paths_view(paths@)),
        size matches Some(n) ==> n == total_string_size(paths_view(paths@)),
{
    let ghost model = paths_view(paths@);
    let mut total: usize = 0;
    let mut i: usize = 0;
    let limit: usize = if paths.len() <= (usize::MAX - HEADER_SIZE) / ENTRY_SIZE {
        usize::MAX - HEADER_SIZE - ENTRY_SIZE * paths.len()
    } else {
        proof {
            lemma_name_offset_monotonic(model, 0, model.len());
        }
        return None;
    };
    while i < paths.len()
        invariant
            i <= paths.len(),
            model == paths_view(paths@),
            total == name_offset(model, i as nat),
            limit == usize::MAX - HEADER_SIZE - ENTRY_SIZE * paths.len(),
            total <= limit,
            forall|j: int| 0 <= j < i ==> (#[trigger] model[j]).len() <= MAX_PATH_UNITS,
        decreases paths.len() - i,
    {
        let units = paths[i].len();
        assert(model[i as int] == paths[i as int]@);
        if units > MAX_PATH_UNITS {
            return None;
        }
        if 2 * units > limit - total {
            proof {
                lemma_name_offset_monotonic(model, (i + 1) as nat, model.len());
            }
            return None;
        }
        total = total + 2 * units;
        i += 1;
    }
    Some(total)
}

/// Builds the configuration image the driver takes with its set-configuration
/// request: a header, one entry per path, and the paths' code units.
pub fn make_process_config(apps: &Vec<Vec<u16>>) -> (buffer: Vec<u8>)
    requires
        encodable(paths_view(apps@)),
    ensures
        buffer@ == process_config(paths_view(apps@)),
        buffer@.len() == total_length(paths_view(apps@)),
        well_formed(buffer@),
        decoded_paths(buffer@) == paths_view(apps@),
{
    let ghost model = paths_view(apps@);
    let total_string_size = checked_total_string_size(apps).unwrap();
    let total_buffer_size = HEADER_SIZE + ENTRY_SIZE * apps.len() + total_string_size;

    let mut buffer: Vec<u8> = Vec::with_capacity(total_buffer_size);
    push_word(&mut buffer, apps.len() as u64);
    push_word(&mut buffer, total_buffer_size as u64);
    assert(buffer@ == header_bytes(model));

    let mut string_offset: usize = 0;
    let mut i: usize = 0;
    while i < apps.len()
        invariant
            i <= apps.len(),
            model == paths_view(apps@),
            encodable(model),
            string_offset == name_offset(model, i as nat),
            buffer@ == header_bytes(model) + entries_bytes(model, i as nat),
        decreases apps.len() - i,
    {
        let units = apps[i].len();
        proof {
            assert(model[i as int] == apps[i as int]@);
            lemma_name_offset_monotonic(model, (i + 1) as nat, model.len());
        }
        push_word(&mut buffer, string_offset as u64);
        push_unit(&mut buffer, (2 * units) as u16);
        let mut pad: usize = 0;
        let ghost unpadded = buffer@;
        while pad < 6
            invariant
                pad <= 6,
                buffer@ == unpadded + Seq::new(pad as nat, |k: int| 0u8),
            decreases 6 - pad,
        {
            buffer.push(0u8);
            pad += 1;
        }
        proof {
            assert(Seq::new(6, |k: int| 0u8) == seq![0u8, 0u8, 0u8, 0u8, 0u8, 0u8]);
            assert(buffer@ == header_bytes(model) + (entries_bytes(model, i as nat) + entry_bytes(
                name_offset(model, i as nat),
                name_length(model[i as int]),
            )));
        }
        string_offset = string_offset + 2 * units;
        i += 1;
    }

    let mut i: usize = 0;
    while i < apps.len()
        invariant
            i <= apps.len(),
            model == paths_view(apps@),
            buffer@ == header_bytes(model) + entries_bytes(model, model.len()) + strings_bytes(
                model,
                i as nat,
            ),
        decreases apps.len() - i,
    {
        let app = &apps[i];
        let ghost before = buffer@;
        proof {
            assert(model[i as int] == app@);
        }
        let mut k: usize = 0;
        while k < app.len()
            invariant
                k <= app.len(),
                buffer@ == before + path_bytes(app@, k as nat),
            decreases app.len() - k,
        {
            push_unit(&mut buffer, app[k]);
            k += 1;
        }
        assert(buffer@ == header_bytes(model) + entries_bytes(model, model.len()) + (strings_bytes(
            model,
            i as nat,
        ) + path_bytes(model[i as int], model[i as int].len())));
        i += 1;
    }
    proof {
        lemma_process_config_len(model);
        law_process_config_round_trip(model);
    }
    buffer
}

/// The word that starts at `offset`.
pub open spec fn word_at(image: Seq<u8>, offset: int) -> u64 {
    spec_u64_from_le_bytes(image.subrange(offset, offset + 8))
}

/// The 16-bit value that starts at `offset`.
pub open spec fn unit_at(image: Seq<u8>, offset: int) -> u16 {
    unit_from_bytes(image[offset], image[offset + 1])
}

/// The header's number of entries.
pub open spec fn image_num_entries(image: Seq<u8>) -> nat {
    word_at(image, 0) as nat
}

/// The header's total length.
pub open spec fn image_total_length(image: Seq<u8>) -> nat {
    word_at(image, 8) as nat
}

/// Where the strings region starts: behind the header and the entries.
pub open spec fn strings_start(image: Seq<u8>) -> int {
    HEADER_SIZE + ENTRY_SIZE * image_num_entries(image)
}

/// The `name_offset` field of the entry with index `index`.
pub open spec fn entry_name_offset(image: Seq<u8>, index: int) -> nat {
    word_at(image, HEADER_SIZE + ENTRY_SIZE * index) as nat
}

/// The `name_length` field of the entry with index `index`.
pub open spec fn entry_name_length(image: Seq<u8>, index: int) -> nat {
    unit_at(image, HEADER_SIZE + ENTRY_SIZE * index + 8) as nat
}

/// Whether the entry with index `index` names whole code units that lie
/// within the strings region.
pub open spec fn entry_in_bounds(image: Seq<u8>, index: int) -> bool {
    &&& entry_name_length(image, index) % 2 == 0
    &&& strings_start(image) + entry_name_offset(image, index) + entry_name_length(image, index)
        <= image.len()
}

/// Whether `image` is a configuration: the header's total length is the
/// image's length, the entries fit, and every entry lies within the strings
/// region.
pub open spec fn well_formed(image: Seq<u8>) -> bool {
    &&& HEADER_SIZE <= image.len()
    &&& image_total_length(image) == image.len()
    &&& strings_start(image) <= image.len()
    &&& forall|i: int| 0 <= i < image_num_entries(image) ==> #[trigger] entry_in_bounds(image, i)
}

/// The path that the entry with index `index` names.
pub open spec fn decoded_path(image: Seq<u8>, index: int) -> Seq<u16> {
    Seq::new(
        entry_name_length(image, index) / 2,
        |k: int| unit_at(image, strings_start(image) + entry_name_offset(image, index) + 2 * k),
    )
}

/// The paths that a configuration names, in the order of its entries.
pub open spec fn decoded_paths(image: Seq<u8>) -> Seq<Seq<u16>> {
    Seq::new(image_num_entries(image), |i: int| decoded_path(image, i))
}

/// Reads the word that starts at `offset`.
fn read_word(image: &Vec<u8>, offset: usize) -> (value: u64)
    requires
        offset + 8 <= image.len(),
    ensures
        value == word_at(image@, offset as int),
{
    u64_from_le_bytes(slice_subrange(image.as_slice(), offset, offset + 8))
}

/// Reads the 16-bit value that starts at `offset`.
fn read_unit(image: &Vec<u8>, offset: usize) -> (value: u16)
    requires
        offset + 2 <= image.len(),
    ensures
        value == unit_at(image@, offset as int),
{
    let low: u16 = image[offset] as u16;
    let high: u16 = image[offset + 1] as u16;
    low + 256 * high
}

/// Reads a configuration image back into the paths it names. Returns `None`
/// where the image is not well formed.
pub fn parse_process_config(image: &Vec<u8>) -> (paths: Option<Vec<Vec<u16>>>)
    ensures
        paths.is_some() == well_formed(image@),
        paths matches Some(names) ==> paths_view(names@) == decoded_paths(image@),
{
    let len = image.len();
    if len < HEADER_SIZE {
        return None;
    }
    let num_entries = read_word(image, 0);
    let total = read_word(image, 8);
    if total != len as u64 {
        return None;
    }
    if num_entries > ((len - HEADER_SIZE) / ENTRY_SIZE) as u64 {
        return None;
    }
    let count = num_entries as usize;
    let start = HEADER_SIZE + ENTRY_SIZE * count;
    let region = len - start;
    let mut names: Vec<Vec<u16>> = Vec::new();
    let mut i: usize = 0;
    while i < count
        invariant
            i <= count,
            len == image.len(),
            count == image_num_entries(image@),
            start == strings_start(image@),
            start <= len,
            region == len - start,
            names@.len() == i,
            forall|j: int| 0 <= j < i ==> #[trigger] entry_in_bounds(image@, j),
            forall|j: int| 0 <= j < i ==> (#[trigger] names@[j])@ == decoded_path(image@, j),
        decreases count - i,
    {
        let entry = HEADER_SIZE + ENTRY_SIZE * i;
        let offset = read_word(image, entry);
        let length = read_unit(image, entry + 8);
        if length % 2 != 0 || offset > region as u64 || length as u64 > region as u64 - offset {
            assert(!entry_in_bounds(image@, i as int));
            return None;
        }
        let first = start + offset as usize;
        let units = (length / 2) as usize;
        let mut name: Vec<u16> = Vec::with_capacity(units);
        let mut k: usize = 0;
        while k < units
            invariant
                k <= units,
                first + 2 * units <= image.len(),
                first == strings_start(image@) + entry_name_offset(image@, i as int),
                name@.len() == k,
                forall|m: int| 0 <= m < k ==> #[trigger] name@[m] == unit_at(image@, first + 2 * m),
            decreases units - k,
        {
            name.push(read_unit(image, first + 2 * k));
            k += 1;
        }
        assert(name@ == decoded_path(image@, i as int));
        names.push(name);
        i += 1;
    }
    assert(paths_view(names@) == decoded_paths(image@));
    Some(names)
}

/// Where the bytes of a code unit stand among the bytes of its path.
proof fn lemma_path_bytes_index(path: Seq<u16>, count: nat, k: int)
    requires
        0 <= k < count,
    ensures
        path_bytes(path, count).len() == 2 * count,
        path_bytes(path, count)[2 * k] == (path[k] % 256) as u8,
        path_bytes(path, count)[2 * k + 1] == (path[k] / 256) as u8,
    decreases count,
{
    lemma_path_bytes_len(path, count);
    lemma_path_bytes_len(path, (count - 1) as nat);
    if k < count - 1 {
        lemma_path_bytes_index(path, (count - 1) as nat, k);
    }
}

/// Where the bytes of a path stand in the strings region.
proof fn lemma_strings_bytes_slice(paths: Seq<Seq<u16>>, count: nat, index: int)
    requires
        0 <= index < count <= paths.len(),
    ensures
        name_offset(paths, index as nat) + name_length(paths[index]) <= name_offset(paths, count),
        strings_bytes(paths, count).len() == name_offset(paths, count),
        strings_bytes(paths, count).subrange(
            name_offset(paths, index as nat) as int,
            (name_offset(paths, index as nat) + name_length(paths[index])) as int,
        ) == path_bytes(paths[index], paths[index].len()),
    decreases count,
{
    let previous = (count - 1) as nat;
    lemma_strings_bytes_len(paths, count);
    lemma_strings_bytes_len(paths, previous);
    lemma_path_bytes_len(paths[count - 1], paths[count - 1].len());
    if index < count - 1 {
        lemma_strings_bytes_slice(paths, previous, index);
    }
}

/// Where the bytes of an entry stand among the entries.
proof fn lemma_entries_bytes_slice(paths: Seq<Seq<u16>>, count: nat, index: int)
    requires
        0 <= index < count,
    ensures
        entries_bytes(paths, count).len() == ENTRY_SIZE * count,
        entries_bytes(paths, count).subrange(ENTRY_SIZE * index, ENTRY_SIZE * index + ENTRY_SIZE)
            == entry_bytes(name_offset(paths, index as nat), name_length(paths[index])),
    decreases count,
{
    let previous = (count - 1) as nat;
    lemma_auto_spec_u64_to_from_le_bytes();
    lemma_entries_bytes_len(paths, count);
    lemma_entries_bytes_len(paths, previous);
    if index < count - 1 {
        lemma_entries_bytes_slice(paths, previous, index);
    }
}

/// What one entry of an image holds: its path's place in the strings
/// region, where the path's code units stand.
proof fn lemma_process_config_entry(paths: Seq<Seq<u16>>, i: int)
    requires
        encodable(paths),
        0 <= i < paths.len(),
    ensures
        entry_name_offset(process_config(paths), i) == name_offset(paths, i as nat),
        entry_name_length(process_config(paths), i) == name_length(paths[i]),
        name_offset(paths, i as nat) + name_length(paths[i]) <= total_string_size(paths),
        decoded_path(process_config(paths), i) == paths[i],
{
    let image = process_config(paths);
    let strings = strings_bytes(paths, paths.len());
    let offset = name_offset(paths, i as nat);
    let length = name_length(paths[i]);
    let entry = entry_bytes(offset, length);
    let at = HEADER_SIZE + ENTRY_SIZE * i;
    lemma_process_config_header(paths);
    lemma_entries_bytes_slice(paths, paths.len(), i);
    lemma_strings_bytes_slice(paths, paths.len(), i);
    lemma_name_offset_monotonic(paths, (i + 1) as nat, paths.len());
    lemma_auto_spec_u64_to_from_le_bytes();
    assert(image.subrange(at, at + ENTRY_SIZE) == entry);
    assert(image.subrange(at, at + 8) == entry.subrange(0, 8));
    assert(entry.subrange(0, 8) == spec_u64_to_le_bytes(offset as u64));
    assert(image[at + 8] == entry[8]);
    assert(image[at + 9] == entry[9]);
    assert(entry_name_offset(image, i) == offset);
    assert(entry_name_length(image, i) == length);
    let start = strings_start(image);
    assert forall|k: int| 0 <= k < paths[i].len() implies unit_at(image, start + offset + 2 * k)
        == paths[i][k] by {
        lemma_path_bytes_index(paths[i], paths[i].len(), k);
        let slice = strings.subrange(offset as int, (offset + length) as int);
        assert(image[start + offset + 2 * k] == slice[2 * k]);
        assert(image[start + offset + 2 * k + 1] == slice[2 * k + 1]);
    }
    assert(decoded_path(image, i) =~= paths[i]);
}

/// What the header of an image holds: the number of paths and the image's
/// own length.
proof fn lemma_process_config_header(paths: Seq<Seq<u16>>)
    requires
        encodable(paths),
    ensures
        process_config(paths).len() == total_length(paths),
        image_num_entries(process_config(paths)) == paths.len(),
        image_total_length(process_config(paths)) == total_length(paths),
        strings_start(process_config(paths)) == HEADER_SIZE + ENTRY_SIZE * paths.len(),
{
    let image = process_config(paths);
    lemma_auto_spec_u64_to_from_le_bytes();
    lemma_process_config_len(paths);
    lemma_entries_bytes_len(paths, paths.len());
    lemma_strings_bytes_len(paths, paths.len());
    assert(image.subrange(0, 8) == spec_u64_to_le_bytes(paths.len() as u64));
    assert(image.subrange(8, 16) == spec_u64_to_le_bytes(total_length(paths) as u64));
}

/// The layout of an image. Its header counts the paths and gives the image's
/// own length, which is that of the header, of one entry for each path and of
/// two bytes for each code unit. Each entry gives its path's offset and
/// length in bytes, and what it names lies within the strings region.
pub proof fn law_process_config_layout(paths: Seq<Seq<u16>>)
    requires
        encodable(paths),
    ensures
        process_config(paths).len() == image_total_length(process_config(paths)),
        image_num_entries(process_config(paths)) == paths.len(),
        image_total_length(process_config(paths)) == HEADER_SIZE + ENTRY_SIZE * image_num_entries(
            process_config(paths),
        ) + total_string_size(paths),
        strings_start(process_config(paths)) + total_string_size(paths) == process_config(
            paths,
        ).len(),
        forall|i: int|
            0 <= i < paths.len() ==> #[trigger] entry_name_offset(process_config(paths), i)
                == name_offset(paths, i as nat),
        forall|i: int|
            0 <= i < paths.len() ==> #[trigger] entry_name_length(process_config(paths), i) == 2
                * paths[i].len(),
        forall|i: int|
            0 <= i < paths.len() ==> #[trigger] entry_in_bounds(process_config(paths), i),
{
    let image = process_config(paths);
    lemma_process_config_header(paths);
    assert forall|i: int| 0 <= i < paths.len() implies #[trigger] entry_name_offset(image, i)
        == name_offset(paths, i as nat) by {
        lemma_process_config_entry(paths, i);
    }
    assert forall|i: int| 0 <= i < paths.len() implies #[trigger] entry_name_length(image, i) == 2
        * paths[i].len() by {
        lemma_process_config_entry(paths, i);
    }
    assert forall|i: int| 0 <= i < paths.len() implies #[trigger] entry_in_bounds(image, i) by {
        lemma_process_config_entry(paths, i);
    }
}

/// An image is well formed, and reading it gives back the paths it was made
/// from.
pub proof fn law_process_config_round_trip(paths: Seq<Seq<u16>>)
    requires
        encodable(paths),
    ensures
        well_formed(process_config(paths)),
        decoded_paths(process_config(paths)) == paths,
{
    let image = process_config(paths);
    law_process_config_layout(paths);
    assert(decoded_paths(image) =~= paths) by {
        assert forall|i: int| 0 <= i < paths.len() implies decoded_paths(image)[i] == paths[i] by {
            lemma_process_config_entry(paths, i);
        }
    }
}

} // verus!
