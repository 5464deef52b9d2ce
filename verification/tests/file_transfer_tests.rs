use pingo::crypto::generate_checksum;
use pingo::file_transfer::{
    candidate_name, chunk_offset, get_mime_type, hex_encode, instance_folder, is_image,
    is_image_extension, mime_type_of, total_chunks_for, ChunkDecision, FileChecksum, FileChunk,
    FileMetadata, FileTransferManager, TransferError, CHUNK_SIZE, MAX_RETRIES,
};

fn sample_file(len: usize) -> Vec<u8> {
    (0..len).map(|i| ((i * 7 + i / 65536) % 251) as u8).collect()
}

fn chunk_of(file: &[u8], index: u32) -> &[u8] {
    let start = index as usize * CHUNK_SIZE;
    let end = usize::min(start + CHUNK_SIZE, file.len());
    &file[start..end]
}

/// Sets up a sender and a receiver for `file` and returns both with the metadata.
fn pair_for(file: &[u8]) -> (FileTransferManager, FileTransferManager, FileMetadata) {
    let mut sender = FileTransferManager::new("/downloads".to_string());
    let mut receiver = FileTransferManager::new("/downloads".to_string());
    let checksum = generate_checksum(file);
    let meta = sender.prepare_send(
        "/tmp/report.pdf",
        "t1",
        Some("report.pdf"),
        Some("pdf"),
        file.len() as u64,
        &checksum,
    );
    let path = receiver.prepare_receive(&meta, "/downloads/report.pdf");
    assert_eq!(path, "/downloads/report.pdf");
    (sender, receiver, meta)
}

/// Delivers one chunk to the receiver, writing into `disk` as the decision says.
fn deliver(receiver: &mut FileTransferManager, disk: &mut Vec<u8>, chunk: &FileChunk) -> bool {
    match receiver.receive_chunk(chunk).unwrap() {
        ChunkDecision::Reject { ack } => {
            assert_eq!(ack.transfer_id, chunk.transfer_id);
            assert_eq!(ack.chunk_index, chunk.chunk_index);
            ack.success
        }
        ChunkDecision::Write { file_path, offset, data } => {
            assert_eq!(file_path, "/downloads/report.pdf");
            let start = offset as usize;
            disk[start..start + data.len()].copy_from_slice(&data);
            receiver.chunk_written(&chunk.transfer_id, chunk.chunk_index).success
        }
    }
}

#[test]
fn chunk_counts_round_up() {
    assert_eq!(total_chunks_for(0), 0);
    assert_eq!(total_chunks_for(1), 1);
    assert_eq!(total_chunks_for(65535), 1);
    assert_eq!(total_chunks_for(65536), 1);
    assert_eq!(total_chunks_for(65537), 2);
    assert_eq!(total_chunks_for(200 * 1024), 4);
    assert_eq!(total_chunks_for(u64::MAX), u32::MAX);
    assert_eq!(total_chunks_for(65536 * (u32::MAX as u64)), u32::MAX);
}

#[test]
fn chunk_offsets_are_multiples_of_the_chunk_size() {
    assert_eq!(CHUNK_SIZE, 65536);
    assert_eq!(MAX_RETRIES, 3);
    assert_eq!(chunk_offset(0), 0);
    assert_eq!(chunk_offset(1), 65536);
    assert_eq!(chunk_offset(3), 196608);
    assert_eq!(chunk_offset(u32::MAX), 65536 * (u32::MAX as u64));
}

#[test]
fn prepare_send_announces_the_file() {
    let file = sample_file(200 * 1024);
    let (sender, _receiver, meta) = pair_for(&file);
    assert_eq!(meta.transfer_id, "t1");
    assert_eq!(meta.file_name, "report.pdf");
    assert_eq!(meta.file_type, "pdf");
    assert_eq!(meta.file_size, 204800);
    assert_eq!(meta.total_chunks, 4);
    assert_eq!(meta.checksum, generate_checksum(&file));
    let state = sender.get_transfer("t1").unwrap();
    assert!(state.is_sender);
    assert!(!state.is_complete);
    assert_eq!(state.received_chunks, vec![false; 4]);
    assert_eq!(state.file_path, "/tmp/report.pdf");
}

#[test]
fn prepare_send_names_the_nameless() {
    let mut sender = FileTransferManager::new(".".to_string());
    let meta = sender.prepare_send("..", "t", None, None, 10, "c");
    assert_eq!(meta.file_name, "unknown");
    assert_eq!(meta.file_type, "bin");
    assert_eq!(meta.total_chunks, 1);
}

#[test]
fn out_of_order_chunks_with_a_duplicate_complete_the_transfer() {
    let file = sample_file(200 * 1024);
    let (sender, mut receiver, meta) = pair_for(&file);
    let mut disk = vec![0u8; file.len()];
    for index in [2u32, 0, 3, 1, 2] {
        let chunk = sender.get_chunk("t1", index, chunk_of(&file, index)).unwrap();
        assert!(deliver(&mut receiver, &mut disk, &chunk));
    }
    assert_eq!(receiver.get_missing_chunks("t1"), Vec::<u32>::new());
    assert_eq!(disk, file);
    let verdict = receiver.complete_transfer("t1", &generate_checksum(&disk)).unwrap();
    assert!(verdict.success);
    assert_eq!(verdict.transfer_id, "t1");
    assert_eq!(verdict.checksum, meta.checksum);
    assert!(receiver.get_transfer("t1").unwrap().is_complete);
}

#[test]
fn a_written_chunk_is_no_longer_missing() {
    let file = sample_file(3 * 65536 + 5);
    let (sender, mut receiver, _meta) = pair_for(&file);
    let mut disk = vec![0u8; file.len()];
    assert_eq!(receiver.get_missing_chunks("t1"), vec![0, 1, 2, 3]);
    let chunk = sender.get_chunk("t1", 2, chunk_of(&file, 2)).unwrap();
    assert!(deliver(&mut receiver, &mut disk, &chunk));
    assert_eq!(receiver.get_missing_chunks("t1"), vec![0, 1, 3]);
    assert!(deliver(&mut receiver, &mut disk, &chunk));
    assert_eq!(receiver.get_missing_chunks("t1"), vec![0, 1, 3]);
    assert_eq!(receiver.get_missing_chunks("unknown"), Vec::<u32>::new());
}

#[test]
fn a_corrupted_chunk_is_answered_and_not_written() {
    let file = sample_file(200 * 1024);
    let (sender, mut receiver, _meta) = pair_for(&file);
    let mut disk = vec![0u8; file.len()];
    let mut chunk = sender.get_chunk("t1", 1, chunk_of(&file, 1)).unwrap();
    let replacement = if chunk.data.starts_with('A') { "B" } else { "A" };
    chunk.data.replace_range(0..1, replacement);
    assert!(!deliver(&mut receiver, &mut disk, &chunk));
    assert_eq!(receiver.get_missing_chunks("t1"), vec![0, 1, 2, 3]);
    assert!(disk[65536..131072].iter().all(|b| *b == 0));
    assert!(!receiver.get_transfer("t1").unwrap().received_chunks[1]);
}

#[test]
fn a_chunk_whose_payload_no_longer_decodes_is_answered_and_not_written() {
    let file = sample_file(200 * 1024);
    let (sender, mut receiver, _meta) = pair_for(&file);
    let mut disk = vec![0u8; file.len()];
    let mut chunk = sender.get_chunk("t1", 1, chunk_of(&file, 1)).unwrap();
    chunk.data.replace_range(5..6, "!");
    assert!(matches!(
        receiver.receive_chunk(&chunk),
        Ok(ChunkDecision::Reject { ack })
            if !ack.success && ack.chunk_index == 1 && ack.transfer_id == "t1"
    ));
    assert!(!deliver(&mut receiver, &mut disk, &chunk));
    assert_eq!(receiver.get_missing_chunks("t1"), vec![0, 1, 2, 3]);
    assert!(disk.iter().all(|b| *b == 0));
    // The sender sends the chunk again, sound this time.
    let again = sender.get_chunk("t1", 1, chunk_of(&file, 1)).unwrap();
    assert!(deliver(&mut receiver, &mut disk, &again));
    assert_eq!(receiver.get_missing_chunks("t1"), vec![0, 2, 3]);
}

#[test]
fn a_payload_that_is_no_base64_is_answered_whatever_the_transfer() {
    let file = sample_file(10);
    let (_sender, receiver, _meta) = pair_for(&file);
    for transfer in ["t1", "unknown"] {
        let chunk = FileChunk {
            transfer_id: transfer.into(),
            chunk_index: 0,
            data: "%%%".into(),
            checksum: "00".into(),
        };
        assert!(matches!(
            receiver.receive_chunk(&chunk),
            Ok(ChunkDecision::Reject { ack })
                if !ack.success && ack.chunk_index == 0 && ack.transfer_id == transfer
        ));
    }
}

#[test]
fn a_sound_chunk_of_an_unknown_transfer_is_an_error() {
    let file = sample_file(10);
    let (sender, receiver, _meta) = pair_for(&file);
    let mut chunk = sender.get_chunk("t1", 0, &file).unwrap();
    chunk.transfer_id = "other".into();
    assert_eq!(receiver.receive_chunk(&chunk).err(), Some(TransferError::TransferNotFound));
    chunk.checksum = "bad".into();
    assert!(matches!(
        receiver.receive_chunk(&chunk),
        Ok(ChunkDecision::Reject { ack }) if !ack.success && ack.transfer_id == "other"
    ));
}

#[test]
fn get_chunk_packs_bytes_with_their_checksum() {
    let file = sample_file(10);
    let (sender, _receiver, _meta) = pair_for(&file);
    let chunk = sender.get_chunk("t1", 0, b"hello").unwrap();
    assert_eq!(chunk.transfer_id, "t1");
    assert_eq!(chunk.chunk_index, 0);
    assert_eq!(chunk.data, "aGVsbG8=");
    assert_eq!(
        chunk.checksum,
        "2cf24dba5fb0a30e26e83b2ac5b9e29e1b161e5c1fa7425e73043362938b9824"
    );
    assert_eq!(sender.get_chunk("nope", 0, b"hello").err(), Some(TransferError::TransferNotFound));
    assert_eq!(sender.calculate_checksum(b"hello"), chunk.checksum);
}

#[test]
fn chunk_written_beyond_the_bitmap_changes_nothing() {
    let file = sample_file(10);
    let (_sender, mut receiver, _meta) = pair_for(&file);
    let ack = receiver.chunk_written("t1", 7);
    assert!(ack.success);
    assert_eq!(ack.chunk_index, 7);
    assert_eq!(receiver.get_missing_chunks("t1"), vec![0]);
    let ack = receiver.chunk_written("gone", 0);
    assert!(ack.success);
    assert!(receiver.get_transfer("gone").is_none());
}

#[test]
fn progress_counts_chunks_and_caps_bytes() {
    let file = sample_file(65536 + 100);
    let (_sender, mut receiver, _meta) = pair_for(&file);
    let p = receiver.get_progress("t1").unwrap();
    assert_eq!((p.chunks_completed, p.total_chunks, p.bytes_transferred, p.total_bytes), (0, 2, 0, 65636));
    receiver.chunk_written("t1", 1);
    let p = receiver.get_progress("t1").unwrap();
    assert_eq!((p.chunks_completed, p.bytes_transferred), (1, 65536));
    receiver.chunk_written("t1", 0);
    let p = receiver.get_progress("t1").unwrap();
    assert_eq!((p.chunks_completed, p.bytes_transferred), (2, 65636));
    assert_eq!(p.transfer_id, "t1");
    assert!(receiver.get_progress("nope").is_none());
}

#[test]
fn a_wrong_checksum_leaves_the_transfer_open() {
    let file = sample_file(100);
    let (_sender, mut receiver, _meta) = pair_for(&file);
    receiver.chunk_written("t1", 0);
    let verdict = receiver.complete_transfer("t1", "deadbeef").unwrap();
    assert!(!verdict.success);
    assert_eq!(verdict.checksum, "deadbeef");
    assert!(!receiver.get_transfer("t1").unwrap().is_complete);
    assert_eq!(
        receiver.complete_transfer("nope", "x").err(),
        Some(TransferError::TransferNotFound)
    );
}

#[test]
fn completion_needs_every_chunk() {
    let file = vec![0u8; 2 * 65536];
    let (_sender, mut receiver, meta) = pair_for(&file);
    let verdict = receiver.complete_transfer("t1", &meta.checksum).unwrap();
    assert!(verdict.success);
    assert!(!receiver.get_transfer("t1").unwrap().is_complete);
    receiver.chunk_written("t1", 0);
    receiver.chunk_written("t1", 1);
    let verdict = receiver.complete_transfer("t1", &meta.checksum).unwrap();
    assert!(verdict.success);
    assert!(receiver.get_transfer("t1").unwrap().is_complete);
}

#[test]
fn cancel_names_the_partial_file_of_a_receiver_only() {
    let file = sample_file(100);
    let (mut sender, mut receiver, meta) = pair_for(&file);
    assert_eq!(sender.cancel_transfer("t1"), None);
    assert!(sender.get_transfer("t1").is_none());
    assert_eq!(receiver.cancel_transfer("t1"), Some("/downloads/report.pdf".to_string()));
    assert!(receiver.get_transfer("t1").is_none());
    assert_eq!(receiver.cancel_transfer("t1"), None);

    receiver.prepare_receive(&meta, "/downloads/report (1).pdf");
    receiver.chunk_written("t1", 0);
    receiver.complete_transfer("t1", &meta.checksum).unwrap();
    assert_eq!(receiver.cancel_transfer("t1"), None);
}

#[test]
fn downloads_dir_is_kept() {
    let m = FileTransferManager::new("/home/u/Downloads/Pingo".to_string());
    assert_eq!(m.get_downloads_dir(), "/home/u/Downloads/Pingo");
}

#[test]
fn streamed_checksum_equals_whole_checksum() {
    let file = sample_file(20000);
    let mut stream = FileChecksum::new();
    for piece in file.chunks(8192) {
        stream.update(piece);
    }
    assert_eq!(stream.finish(), generate_checksum(&file));
    assert_eq!(FileChecksum::new().finish(), generate_checksum(b""));
}

#[test]
fn candidate_names_count_before_the_extension() {
    assert_eq!(candidate_name("a.txt", Some("a"), Some("txt"), 0), "a.txt");
    assert_eq!(candidate_name("a.txt", Some("a"), Some("txt"), 1), "a (1).txt");
    assert_eq!(candidate_name("a.txt", Some("a"), Some("txt"), 12), "a (12).txt");
    assert_eq!(candidate_name("notes", Some("notes"), None, 2), "notes (2)");
    assert_eq!(candidate_name("notes", Some("notes"), Some(""), 2), "notes (2)");
    assert_eq!(candidate_name("..", None, None, 3), "file (3)");
}

#[test]
fn instance_folder_takes_the_instance_name() {
    assert_eq!(instance_folder(""), "Pingo");
    assert_eq!(instance_folder("dev2"), "Pingo_dev2");
}

#[test]
fn image_types_are_recognised_whatever_the_case() {
    for t in ["jpg", "jpeg", "png", "gif", "webp", "bmp", "svg", "PNG", "JpEg"] {
        assert!(is_image(t), "{}", t);
    }
    for t in ["pdf", "", "png ", "tiff", "mp4"] {
        assert!(!is_image(t), "{}", t);
    }
    assert!(is_image_extension("png"));
    assert!(!is_image_extension("PNG"));
}

#[test]
fn mime_types_follow_the_extension() {
    assert_eq!(get_mime_type("jpg"), "image/jpeg");
    assert_eq!(get_mime_type("JPEG"), "image/jpeg");
    assert_eq!(get_mime_type("png"), "image/png");
    assert_eq!(get_mime_type("gif"), "image/gif");
    assert_eq!(get_mime_type("webp"), "image/webp");
    assert_eq!(get_mime_type("svg"), "image/svg+xml");
    assert_eq!(get_mime_type("pdf"), "application/pdf");
    assert_eq!(get_mime_type("doc"), "application/msword");
    assert_eq!(
        get_mime_type("docx"),
        "application/vnd.openxmlformats-officedocument.wordprocessingml.document"
    );
    assert_eq!(get_mime_type("xls"), "application/vnd.ms-excel");
    assert_eq!(
        get_mime_type("xlsx"),
        "application/vnd.openxmlformats-officedocument.spreadsheetml.sheet"
    );
    assert_eq!(get_mime_type("zip"), "application/zip");
    assert_eq!(get_mime_type("mp3"), "audio/mpeg");
    assert_eq!(get_mime_type("mp4"), "video/mp4");
    assert_eq!(get_mime_type("txt"), "text/plain");
    assert_eq!(get_mime_type("exe"), "application/octet-stream");
    assert_eq!(mime_type_of("TXT"), "application/octet-stream");
}

#[test]
fn hex_encode_matches_the_checksum_alphabet() {
    assert_eq!(hex_encode(&[0xde, 0xad, 0x00, 0x0a]), "dead000a");
}

#[test]
fn transfer_errors_have_messages() {
    assert_eq!(TransferError::TransferNotFound.message(), "Transfer not found");
}

#[test]
fn a_chunk_is_judged_by_its_checksum_before_its_transfer() {
    let file = sample_file(10);
    let (_sender, receiver, _meta) = pair_for(&file);
    let chunk = FileChunk {
        transfer_id: "t1".into(),
        chunk_index: 3,
        data: String::new(),
        checksum: "abc".into(),
    };
    assert!(matches!(
        receiver.judge_chunk(&chunk, vec![1, 2], "abd"),
        Ok(ChunkDecision::Reject { ack }) if !ack.success && ack.chunk_index == 3
    ));
    assert!(matches!(
        receiver.judge_chunk(&chunk, vec![1, 2], "abc"),
        Ok(ChunkDecision::Write { file_path, offset, data })
            if file_path == "/downloads/report.pdf" && offset == 196608 && data == vec![1, 2]
    ));
    let stranger = FileChunk { transfer_id: "zz".into(), ..chunk.clone() };
    assert_eq!(
        receiver.judge_chunk(&stranger, vec![], "abc").err(),
        Some(TransferError::TransferNotFound)
    );
    assert!(matches!(
        receiver.judge_chunk(&stranger, vec![], "nope"),
        Ok(ChunkDecision::Reject { .. })
    ));
}
