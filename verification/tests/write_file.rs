use base64::prelude::BASE64_STANDARD;
use base64::Engine;
use mumu_cli::write_file::WRITE_FILE_CMD_BUDGET;
use mumu_cli::MumuCli;

#[test]
fn write_file_small_stays_single_command() {
    let cmds = MumuCli::write_file_cmds("/storage/emulated/0/Delta/x", b"hello world", 28_000);
    assert_eq!(cmds.len(), 1);
    assert!(cmds[0].starts_with("echo "));
    assert!(cmds[0].ends_with("| base64 -d > /storage/emulated/0/Delta/x"));
}

#[test]
fn write_file_large_chunks_reconstruct_content() {
    // ~80 KB of non-trivial bytes forces the chunked path.
    let content: Vec<u8> = (0..80_000u32)
        .map(|i| (i.wrapping_mul(31) % 251) as u8)
        .collect();
    let budget = 28_000;
    let path = "/storage/emulated/0/Delta/big.bin";
    let cmds = MumuCli::write_file_cmds(path, &content, budget);

    assert!(cmds.len() > 2, "large content must chunk");
    for c in &cmds {
        assert!(
            c.len() <= budget,
            "command exceeds budget: {} > {budget}",
            c.len()
        );
    }

    // Replay the commands the way the device would: each chunk command is
    // `echo <chunk> >|>> <tmp>` with whitespace-free tokens, so split(' ')
    // recovers the base64; concatenating them and decoding must yield the
    // original bytes.
    let (decode_cmd, echo_cmds) = cmds.split_last().unwrap();
    let mut b64 = String::new();
    for (i, c) in echo_cmds.iter().enumerate() {
        let parts: Vec<&str> = c.split(' ').collect();
        assert_eq!(parts[0], "echo");
        assert_eq!(
            parts[2],
            if i == 0 { ">" } else { ">>" },
            "wrong redirect on chunk {i}"
        );
        b64.push_str(parts[1]);
    }
    assert!(decode_cmd.starts_with("base64 -d "));
    assert!(decode_cmd.contains(&format!("> {path}")));

    let decoded = BASE64_STANDARD
        .decode(b64.as_bytes())
        .expect("reassembled base64 must decode");
    assert_eq!(
        decoded, content,
        "chunked write must reconstruct the original bytes"
    );
}

#[test]
fn write_file_one_shot_is_exact() {
    let cmds = MumuCli::write_file_cmds("/sdcard/a.txt", b"hello world", WRITE_FILE_CMD_BUDGET);
    assert_eq!(cmds, vec!["echo aGVsbG8gd29ybGQ= | base64 -d > /sdcard/a.txt".to_string()]);
}

#[test]
fn write_file_budget_boundary_between_shapes() {
    // The one-shot command is 20 + 16 + 6 = 42 bytes long.
    let exact = MumuCli::write_file_cmds("/d/x.y", b"hello world", 42);
    assert_eq!(exact.len(), 1);
    let short = MumuCli::write_file_cmds("/d/x.y", b"hello world", 41);
    // tmp is "/d/x.y.omna_b64" (15 bytes): chunks of 41 - 31 = 10 characters.
    assert_eq!(
        short,
        vec![
            "echo aGVsbG8gd2 > /d/x.y.omna_b64".to_string(),
            "echo 9ybGQ= >> /d/x.y.omna_b64".to_string(),
            "base64 -d /d/x.y.omna_b64 > /d/x.y && rm -f /d/x.y.omna_b64".to_string(),
        ]
    );
}

#[test]
fn write_file_tiny_budget_uses_one_character_chunks() {
    let cmds = MumuCli::write_file_cmds("/p", b"ab", 1);
    // "YWI=" in chunks of one character, then the decode command.
    assert_eq!(cmds.len(), 5);
    assert_eq!(cmds[0], "echo Y > /p.omna_b64");
    assert_eq!(cmds[1], "echo W >> /p.omna_b64");
    assert_eq!(cmds[3], "echo = >> /p.omna_b64");
    assert_eq!(cmds[4], "base64 -d /p.omna_b64 > /p && rm -f /p.omna_b64");
}

#[test]
fn write_file_empty_content_with_tiny_budget_only_decodes() {
    let cmds = MumuCli::write_file_cmds("/p", b"", 3);
    assert_eq!(cmds, vec!["base64 -d /p.omna_b64 > /p && rm -f /p.omna_b64".to_string()]);
}

#[test]
fn write_file_non_ascii_path_counts_bytes() {
    // "/é" is 3 bytes: the one-shot command "echo YQ== | base64 -d > /é" is 27 bytes.
    assert_eq!(MumuCli::write_file_cmds("/é", b"a", 27).len(), 1);
    assert!(MumuCli::write_file_cmds("/é", b"a", 26).len() > 1);
}

#[test]
fn write_file_from_encoded_text() {
    let cmds = MumuCli::write_file_cmds_encoded("/d/x.y", "aGVsbG8gd29ybGQ=", 41);
    assert_eq!(cmds, MumuCli::write_file_cmds("/d/x.y", b"hello world", 41));
    assert_eq!(
        MumuCli::write_file_cmds_encoded("/p", "QUJD", 100),
        vec!["echo QUJD | base64 -d > /p".to_string()]
    );
}

#[test]
fn write_file_base64_matches_the_crate() {
    let cases: [&[u8]; 6] = [b"", b"a", b"ab", b"abc", b"\xff\x00\x7f\x80", b"hello world!"];
    for content in cases {
        let cmds = MumuCli::write_file_cmds("/p", content, 10_000);
        assert_eq!(cmds, vec![format!("echo {} | base64 -d > /p", BASE64_STANDARD.encode(content))]);
    }
}
