use sldl_remote::crypto::{generate_key, key_from_bytes, open, seal, seal_with_nonce, KEY_LEN, NONCE_LEN};
use sldl_remote::error::{to_tauri, AppError};
use sldl_remote::job::Ratio;
use sldl_remote::progress::parse_progress;

#[test]
fn round_trip_and_fresh_nonce() {
    let plaintext = b"hello world this is a test config";
    let key = generate_key();
    let first = seal(&key, plaintext).unwrap();
    let decrypted = open(&key, &first).unwrap();
    assert_eq!(plaintext.to_vec(), decrypted);

    // fresh nonce each write
    let second = seal(&key, plaintext).unwrap();
    assert_ne!(first, second, "Nonce must be fresh each write");
    assert_eq!(open(&key, &second).unwrap(), plaintext.to_vec());
}

#[test]
fn sealed_layout_is_nonce_then_ciphertext() {
    let key = vec![7u8; KEY_LEN];
    let nonce = vec![1u8; NONCE_LEN];
    let out = seal_with_nonce(&key, &nonce, b"abc").unwrap();
    assert_eq!(out.len(), NONCE_LEN + 3 + 16);
    assert_eq!(&out[..NONCE_LEN], &nonce[..]);
    assert_ne!(&out[NONCE_LEN..NONCE_LEN + 3], b"abc");
    let again = seal_with_nonce(&key, &nonce, b"abc").unwrap();
    assert_eq!(out, again);
    assert_eq!(open(&key, &out).unwrap(), b"abc".to_vec());
}

#[test]
fn truncated_file_is_rejected() {
    let key = generate_key();
    assert_eq!(key.len(), KEY_LEN);
    let e = open(&key, &[0u8; 5]).unwrap_err();
    assert_eq!(e.to_string(), "Crypto error: Config file too short (truncated)");
}

#[test]
fn tampered_or_wrong_key_fails() {
    let key = generate_key();
    let mut sealed = seal(&key, b"secret").unwrap();
    assert_eq!(sealed.len(), NONCE_LEN + 6 + 16);
    let last = sealed.len() - 1;
    sealed[last] ^= 1;
    let e = open(&key, &sealed).unwrap_err();
    assert_eq!(e.to_string(), "Crypto error: Decryption failed: Error");
    let good = seal(&key, b"secret").unwrap();
    let other = vec![9u8; KEY_LEN];
    assert!(open(&other, &good).is_err());
}

#[test]
fn key_file_contents() {
    assert_eq!(key_from_bytes(&[3u8; 32]), Some(vec![3u8; 32]));
    assert_eq!(key_from_bytes(&[3u8; 31]), None);
    assert_eq!(key_from_bytes(&[]), None);
}

#[test]
fn error_texts() {
    let e = AppError::Ssh { host: "h".into(), cmd: "ls".into(), cause: "boom".into() };
    assert_eq!(e.to_string(), "SSH failed on h: boom (cmd: ls)");
    let b = AppError::SoulseekBanned { ip: Some("1.2.3.4".into()), message: "wait".into() };
    assert_eq!(b.to_string(), "Soulseek ban (IP: 1.2.3.4): wait");
    let b2 = AppError::SoulseekBanned { ip: None, message: "wait".into() };
    assert_eq!(b2.to_string(), "Soulseek ban: wait");
    assert_eq!(AppError::Config("x".into()).to_string(), "Config error: x");
    assert_eq!(AppError::InvalidInput("x".into()).to_string(), "Invalid input: x");
    assert_eq!(AppError::Internal("x".into()).to_string(), "Internal error: x");
    assert_eq!(AppError::json("bad").to_string(), "Config error: JSON parse: bad");
    let r: Result<u8, AppError> = Err(AppError::JobNotFound("j".into()));
    assert_eq!(to_tauri(r), Err("Job j not found".to_string()));
    let r: Result<u8, AppError> = Ok(4);
    assert_eq!(to_tauri(r), Ok(4));
}

#[test]
fn progress_from_log() {
    let log = "Initialize: job\nSearching:   Artist - Song  \nNot found: A - B (3:00)\n\
               Not found: C - D (2:00)\nDownloaded 3 of Total 10 (30%)\n\
               Downloaded 4, Failed 2 of Total 10\n";
    let p = parse_progress(log);
    assert_eq!(p.downloaded, 3);
    assert_eq!(p.total, 10);
    assert_eq!(p.failed, 2);
    assert_eq!(p.not_found, 2);
    assert_eq!(p.percent, Some(Ratio { part: 3, whole: 10 }));
    assert_eq!(p.current_track.as_deref(), Some("Artist - Song"));
    assert_eq!(p.current_action.as_deref(), Some("downloading"));
}

#[test]
fn progress_finishing_and_empty() {
    let p = parse_progress("All downloads complete");
    assert_eq!(p.current_action.as_deref(), Some("finishing"));
    assert_eq!(p.downloaded, 0);
    let e = parse_progress("");
    assert_eq!(e.total, 0);
    assert_eq!(e.percent, None);
    assert_eq!(e.current_action, None);
    assert_eq!(e.not_found, 0);
}

#[test]
fn progress_ignores_short_and_bad_lines() {
    let p = parse_progress("Downloaded x of Total y (z)\nDownloaded 1 of 2");
    assert_eq!(p.downloaded, 0);
    assert_eq!(p.total, 0);
    assert_eq!(p.percent, None);
    let q = parse_progress("xx Downloaded 5 of Total 0 (0%)");
    assert_eq!(q.downloaded, 5);
    assert_eq!(q.total, 0);
    assert_eq!(q.percent, None);
}

#[test]
fn progress_percentage_is_capped() {
    let p = parse_progress("Downloaded 8 of Total 4 (200%)");
    assert_eq!(p.downloaded, 8);
    assert_eq!(p.total, 4);
    assert_eq!(p.percent, Some(Ratio { part: 4, whole: 4 }));
}
