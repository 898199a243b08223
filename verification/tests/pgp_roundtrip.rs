//! What the library encrypts, the holder of the key can read.

use std::io::Read;

use maily::pgp::encrypt;

use sequoia_openpgp::cert::CertBuilder;
use sequoia_openpgp::crypto::SessionKey;
use sequoia_openpgp::packet::PKESK;
use sequoia_openpgp::packet::SKESK;
use sequoia_openpgp::parse::stream::DecryptionHelper;
use sequoia_openpgp::parse::stream::DecryptorBuilder;
use sequoia_openpgp::parse::stream::MessageStructure;
use sequoia_openpgp::parse::stream::VerificationHelper;
use sequoia_openpgp::parse::Parse;
use sequoia_openpgp::policy::StandardPolicy;
use sequoia_openpgp::serialize::Serialize;
use sequoia_openpgp::types::SymmetricAlgorithm;
use sequoia_openpgp::Cert;
use sequoia_openpgp::Fingerprint;
use sequoia_openpgp::KeyHandle;

struct Holder<'a> {
    cert: &'a Cert,
    policy: &'a StandardPolicy<'a>,
}

impl VerificationHelper for Holder<'_> {
    fn get_certs(&mut self, _ids: &[KeyHandle]) -> sequoia_openpgp::Result<Vec<Cert>> {
        Ok(Vec::new())
    }

    fn check(&mut self, _structure: MessageStructure) -> sequoia_openpgp::Result<()> {
        Ok(())
    }
}

impl DecryptionHelper for Holder<'_> {
    fn decrypt<D>(
        &mut self,
        pkesks: &[PKESK],
        _skesks: &[SKESK],
        sym_algo: Option<SymmetricAlgorithm>,
        mut decrypt: D,
    ) -> sequoia_openpgp::Result<Option<Fingerprint>>
    where
        D: FnMut(SymmetricAlgorithm, &SessionKey) -> bool,
    {
        let keys = self
            .cert
            .keys()
            .unencrypted_secret()
            .with_policy(self.policy, None)
            .for_transport_encryption();
        for key in keys {
            let mut pair = key.key().clone().into_keypair()?;
            for pkesk in pkesks {
                let opened = pkesk
                    .decrypt(&mut pair, sym_algo)
                    .map(|(algo, session_key)| decrypt(algo, &session_key))
                    .unwrap_or(false);
                if opened {
                    return Ok(None);
                }
            }
        }
        Err(anyhow::Error::msg("no key opens the message"))
    }
}

fn open(armored: &[u8], cert: &Cert) -> sequoia_openpgp::Result<Vec<u8>> {
    let policy = StandardPolicy::new();
    let holder = Holder { cert, policy: &policy };
    let mut decryptor =
        DecryptorBuilder::from_bytes(armored)?.with_policy(&policy, None, holder)?;
    let mut plain = Vec::new();
    decryptor.read_to_end(&mut plain)?;
    Ok(plain)
}

fn public_keybox(certs: &[&Cert]) -> Vec<u8> {
    let mut bytes = Vec::new();
    for cert in certs {
        cert.serialize(&mut bytes).unwrap();
    }
    bytes
}

#[test]
fn the_recipient_reads_what_was_encrypted() {
    let (alice, _) =
        CertBuilder::general_purpose(None, Some("alice@example.org")).generate().unwrap();
    let message = b"the quick brown fox\njumps over the lazy dog\n";
    let armored =
        encrypt(message, &public_keybox(&[&alice]), &vec!["alice@example.org".to_string()])
            .unwrap();
    assert_eq!(open(&armored, &alice).unwrap(), message);
}

#[test]
fn every_recipient_reads_what_was_encrypted() {
    let (alice, _) =
        CertBuilder::general_purpose(None, Some("alice@example.org")).generate().unwrap();
    let (bob, _) =
        CertBuilder::general_purpose(None, Some("Bob <bob@example.org>")).generate().unwrap();
    let (carol, _) =
        CertBuilder::general_purpose(None, Some("carol@example.org")).generate().unwrap();
    let message = (0..100_000u32).map(|i| (i % 251) as u8).collect::<Vec<_>>();
    let armored = encrypt(
        &message,
        &public_keybox(&[&alice, &bob, &carol]),
        &vec!["alice@example.org".to_string(), "bob@example.org".to_string()],
    )
    .unwrap();

    assert_eq!(open(&armored, &alice).unwrap(), message);
    assert_eq!(open(&armored, &bob).unwrap(), message);
    // Carol is in the keybox, but the message was not meant for her.
    assert!(open(&armored, &carol).is_err());
}

#[test]
fn an_empty_message_is_encrypted_too() {
    let (alice, _) =
        CertBuilder::general_purpose(None, Some("alice@example.org")).generate().unwrap();
    let armored =
        encrypt(b"", &public_keybox(&[&alice]), &vec!["alice@example.org".to_string()]).unwrap();
    assert_eq!(open(&armored, &alice).unwrap(), b"");
}
