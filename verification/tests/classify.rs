use ccobalt::util::filetype::get_sig;
use ccobalt::util::filetype::fits_pattern;
use ccobalt::util::filetype::signature_table;
use ccobalt::util::filetype::FileType;
use ccobalt::util::filetype::PREFIX_LEN;
use ccobalt::util::filetype::SHORTEST_SIGNATURE;
use ccobalt::util::filetype::TABLE_LEN;
use ccobalt::util::stream::append_chunk;
use ccobalt::util::write::file_name;

const MP4: [u8; 12] = [0x00, 0x00, 0x00, 0x18, 0x66, 0x74, 0x79, 0x70, 0x69, 0x73, 0x6F, 0x6D];

#[test]
fn every_signature_family_classifies() {
    let cases: Vec<(Vec<u8>, FileType, &str)> = vec![
        (MP4.to_vec(), FileType::Mp4, "mp4"),
        (vec![0x1A, 0x45, 0xDF, 0xA3], FileType::Webm, "webm"),
        (b"ID3".to_vec(), FileType::Mp3, "mp3"),
        (vec![0xFF, 0xFB], FileType::Mp3, "mp3"),
        (vec![0xFF, 0xF3], FileType::Mp3, "mp3"),
        (vec![0xFF, 0xF2], FileType::Mp3, "mp3"),
        (b"OggS".to_vec(), FileType::Ogg, "ogg"),
        (b"RIFF\x24\x08\x00\x00WAVE".to_vec(), FileType::Wav, "wav"),
        (b"fLaC".to_vec(), FileType::Flac, "flac"),
        (b"GIF8".to_vec(), FileType::Gif, "gif"),
        (vec![0x89, 0x50, 0x4E, 0x47, 0x0D, 0x0A, 0x1A, 0x0A], FileType::Png, "png"),
        (vec![0xFF, 0xD8, 0xFF], FileType::Jpg, "jpg"),
        (b"RIFF\x00\x00\x00\x00WEBP".to_vec(), FileType::Webp, "webp"),
    ];
    assert_eq!(cases.len(), TABLE_LEN);
    for (bytes, kind, extension) in cases {
        assert_eq!(get_sig(&bytes), Some(kind));
        assert_eq!(kind.as_str(), extension);
        // what follows the signature does not matter
        let mut longer = bytes.clone();
        longer.extend_from_slice(&[0xAB; 40]);
        assert_eq!(get_sig(&longer), Some(kind));
    }
}

#[test]
fn the_table_rows_are_the_signatures() {
    let table = signature_table();
    assert_eq!(table.len(), TABLE_LEN);
    assert_eq!(table[0].kind, FileType::Mp4);
    assert_eq!(table[0].pattern[3], None);
    assert_eq!(table[0].pattern[4], Some(0x66));
    assert_eq!(table[12].kind, FileType::Webp);
    assert_eq!(table[12].pattern.len(), PREFIX_LEN);
    let shortest = table.iter().map(|row| row.pattern.len()).min();
    assert_eq!(shortest, Some(SHORTEST_SIGNATURE));
    let longest = table.iter().map(|row| row.pattern.len()).max();
    assert_eq!(longest, Some(PREFIX_LEN));
}

#[test]
fn a_buffer_shorter_than_every_signature_is_unclassified() {
    assert_eq!(get_sig(&[]), None);
    assert_eq!(get_sig(&[0xFF]), None);
    assert_eq!(get_sig(&[0x89]), None);
}

#[test]
fn a_buffer_cut_inside_its_signature_is_unclassified() {
    assert_eq!(get_sig(&MP4[..7]), None);
    assert_eq!(get_sig(b"RIFF\x00\x00\x00\x00WAV"), None);
    assert_eq!(get_sig(b"GIF"), None);
    assert_eq!(get_sig(&[0xFF, 0xD8]), None);
}

#[test]
fn a_buffer_that_matches_no_signature_is_unclassified() {
    assert_eq!(get_sig(b"hello, world"), None);
    assert_eq!(get_sig(&[0u8; 64]), None);
    assert_eq!(get_sig(b"RIFF\x00\x00\x00\x00AVI "), None);
    // "ftyp" must follow a box size below 256
    assert_eq!(get_sig(&[0x00, 0x00, 0x01, 0x00, 0x66, 0x74, 0x79, 0x70]), None);
    assert_eq!(get_sig(b"OggXftyp"), None);
}

#[test]
fn open_positions_accept_any_byte() {
    for size in [0x00u8, 0x14, 0x18, 0x20, 0xFF] {
        let bytes = [0x00, 0x00, 0x00, size, 0x66, 0x74, 0x79, 0x70];
        assert_eq!(get_sig(&bytes), Some(FileType::Mp4));
    }
    assert_eq!(get_sig(b"RIFF\xFF\xFF\xFF\xFFWEBPVP8 "), Some(FileType::Webp));
}

#[test]
fn classification_reads_the_first_twelve_bytes_only() {
    let mut a = b"RIFF\x10\x00\x00\x00WAVEfmt ".to_vec();
    let b = a[..PREFIX_LEN].to_vec();
    assert_eq!(get_sig(&a), get_sig(&b));
    a[12] = 0;
    a[15] = 0xFF;
    assert_eq!(get_sig(&a), Some(FileType::Wav));
}

#[test]
fn classification_is_repeatable() {
    let bytes = MP4.to_vec();
    assert_eq!(get_sig(&bytes), get_sig(&bytes));
    let copy = bytes.clone();
    assert_eq!(get_sig(&bytes), get_sig(&copy));
}

#[test]
fn a_pattern_fits_where_its_fixed_bytes_agree() {
    let pattern = vec![Some(1u8), None, Some(3u8)];
    assert!(fits_pattern(&[1, 2, 3], &pattern));
    assert!(fits_pattern(&[1, 9, 3, 4], &pattern));
    assert!(!fits_pattern(&[1, 2], &pattern));
    assert!(!fits_pattern(&[1, 2, 4], &pattern));
    assert!(!fits_pattern(&[0, 2, 3], &pattern));
    assert!(fits_pattern(&[], &Vec::new()));
}

#[test]
fn the_file_name_carries_the_extension_of_the_contents() {
    assert_eq!(file_name(&MP4, "video"), "video.mp4");
    assert_eq!(file_name(b"OggS\x00\x02", "track.01"), "track.01.ogg");
    assert_eq!(file_name(&[0xFF, 0xD8, 0xFF, 0xE0], ""), ".jpg");
}

#[test]
fn unclassified_contents_are_named_bin() {
    assert_eq!(file_name(b"plain text", "notes"), "notes.bin");
    assert_eq!(file_name(&[], "empty"), "empty.bin");
}

#[test]
fn chunks_are_appended_in_order() {
    let mut data = vec![1u8, 2];
    append_chunk(&mut data, &[3, 4, 5]);
    assert_eq!(data, vec![1, 2, 3, 4, 5]);
    append_chunk(&mut data, &[]);
    assert_eq!(data, vec![1, 2, 3, 4, 5]);
    append_chunk(&mut data, &[6]);
    assert_eq!(data, vec![1, 2, 3, 4, 5, 6]);
}
