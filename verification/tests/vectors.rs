use core::hash::Hasher;
use siphasher::sip;
use siphasher::sip128;
use siphasher::sip128::Hasher128;

const K0: u64 = 0x0706050403020100;
const K1: u64 = 0x0f0e0d0c0b0a0908;

// Digests of the messages 00, 00 01, 00 01 02, ... of lengths 0 to 63 under
// the key 00 01 .. 0f, as the 64-bit value that `finish` returns.

fn expected_2_4() -> [u64; 64] {
    [
        0x726fdb47dd0e0e31,
        0x74f839c593dc67fd,
        0x0d6c8009d9a94f5a,
        0x85676696d7fb7e2d,
        0xcf2794e0277187b7,
        0x18765564cd99a68d,
        0xcbc9466e58fee3ce,
        0xab0200f58b01d137,
        0x93f5f5799a932462,
        0x9e0082df0ba9e4b0,
        0x7a5dbbc594ddb9f3,
        0xf4b32f46226bada7,
        0x751e8fbc860ee5fb,
        0x14ea5627c0843d90,
        0xf723ca908e7af2ee,
        0xa129ca6149be45e5,
        0x3f2acc7f57c29bdb,
        0x699ae9f52cbe4794,
        0x4bc1b3f0968dd39c,
        0xbb6dc91da77961bd,
        0xbed65cf21aa2ee98,
        0xd0f2cbb02e3b67c7,
        0x93536795e3a33e88,
        0xa80c038ccd5ccec8,
        0xb8ad50c6f649af94,
        0xbce192de8a85b8ea,
        0x17d835b85bbb15f3,
        0x2f2e6163076bcfad,
        0xde4daaaca71dc9a5,
        0xa6a2506687956571,
        0xad87a3535c49ef28,
        0x32d892fad841c342,
        0x7127512f72f27cce,
        0xa7f32346f95978e3,
        0x12e0b01abb051238,
        0x15e034d40fa197ae,
        0x314dffbe0815a3b4,
        0x027990f029623981,
        0xcadcd4e59ef40c4d,
        0x9abfd8766a33735c,
        0x0e3ea96b5304a7d0,
        0xad0c42d6fc585992,
        0x187306c89bc215a9,
        0xd4a60abcf3792b95,
        0xf935451de4f21df2,
        0xa9538f0419755787,
        0xdb9acddff56ca510,
        0xd06c98cd5c0975eb,
        0xe612a3cb9ecba951,
        0xc766e62cfcadaf96,
        0xee64435a9752fe72,
        0xa192d576b245165a,
        0x0a8787bf8ecb74b2,
        0x81b3e73d20b49b6f,
        0x7fa8220ba3b2ecea,
        0x245731c13ca42499,
        0xb78dbfaf3a8d83bd,
        0xea1ad565322a1a0b,
        0x60e61c23a3795013,
        0x6606d7e446282b93,
        0x6ca4ecb15c5f91e1,
        0x9f626da15c9625f3,
        0xe51b38608ef25f57,
        0x958a324ceb064572,
    ]
}

fn expected_1_3() -> [u64; 64] {
    [
        0xabac0158050fc4dc,
        0xc9f49bf37d57ca93,
        0x82cb9b024dc7d44d,
        0x8bf80ab8e7ddf7fb,
        0xcf75576088d38328,
        0xdef9d52f49533b67,
        0xc50d2b50c59f22a7,
        0xd3927d989bb11140,
        0x369095118d299a8e,
        0x25a48eb36c063de4,
        0x79de85ee92ff097f,
        0x70c118c1f94dc352,
        0x78a384b157b4d9a2,
        0x306f760c1229ffa7,
        0x605aa111c0f95d34,
        0xd320d86d2a519956,
        0xcc4fdd1a7d908b66,
        0x9cf2689063dbd80c,
        0x8ffc389cb473e63e,
        0xf21f9de58d297d1c,
        0xc0dc2f46a6cce040,
        0xb992abfe2b45f844,
        0x7ffe7b9ba320872e,
        0x525a0e7fdae6c123,
        0xf464aeb267349c8c,
        0x45cd5928705b0979,
        0x3a3e35e3ca9913a5,
        0xa91dc74e4ade3b35,
        0xfb0bed02ef6cd00d,
        0x88d93cb44ab1e1f4,
        0x540f11d643c5e663,
        0x2370dd1f8c21d1bc,
        0x81157b6c16a7b60d,
        0x4d54b9e57a8ff9bf,
        0x759f12781f2a753e,
        0xcea1a3bebf186b91,
        0x2cf508d3ada26206,
        0xb6101c2da3c33057,
        0xb3f47496ae3a36a1,
        0x626b57547b108392,
        0xc1d2363299e41531,
        0x667cc1923f1ad944,
        0x65704ffec8138825,
        0x24f280d1c28949a6,
        0xc2ca1cedfaf8876b,
        0xc2164bfc9f042196,
        0xa16e9c9368b1d623,
        0x49fb169c8b5114fd,
        0x9f3143f8df074c46,
        0xc6fdaf2412cc86b3,
        0x7eaf49d10a52098f,
        0x1cf313559d292f9a,
        0xc44a30dda2f41f12,
        0x36fae98943a71ed0,
        0x318fb34c73f0bce6,
        0xa27abf3670a7e980,
        0xb4bcc0db243c6d75,
        0x23f8d852fdb71513,
        0x8f035f4da67d8a08,
        0xd89cd0e5b7e8f148,
        0xf6f4e6bcf7a644ee,
        0xaec59ad80f1837f2,
        0xc3b2f6154b6694e0,
        0x9d199062b7bbb3a8,
    ]
}

// The same for the 128-bit digests: low half, high half.

fn expected_128_2_4() -> [(u64, u64); 64] {
    [
        (0xe6a825ba047f81a3, 0x930255c71472f66d),
        (0x44af996bd8c187da, 0x45fc229b11597634),
        (0xc75da4a48d227781, 0xe4ff0af6de8ba3fc),
        (0x4ea967520cb6709c, 0x51ed8529b0b6335f),
        (0xaf8f9c2dc16481f8, 0x7955cd7b7c6e0f7d),
        (0x886f778059876813, 0x27960e69077a5254),
        (0x1386208b33caee14, 0x5ea1d78f30a05e48),
        (0x53c1dbd8beebf1a1, 0x3982f01fa64ab8c0),
        (0x61f55862baa9623b, 0xb49714f364e2830f),
        (0xabbad90a06994426, 0xed716dbb028b7fc4),
        (0x56691478c30d1100, 0xbafbd0f3d34754c9),
        (0x77666b3868c55101, 0x18dce5816fdcb4a2),
        (0x58f35e9066b226d6, 0x25c13285f64d6382),
        (0x108bc0e947e26998, 0xf752b9c44f9329d0),
        (0x9cded766aceffc31, 0x024949e45f48c77e),
        (0x11a8b03399e99354, 0xd9c3cf970fec087e),
        (0xbb54b067caa4e26e, 0x77052385bf1533fd),
        (0x98b88d73e8063d47, 0x4077e47ac466c054),
        (0x8548bf23e4e526a4, 0x23f7aefe81a44d29),
        (0xb0fa65cf31770178, 0xb12e51528920d574),
        (0x7390223f83fc259e, 0xeb3938e8a544933e),
        (0x215a52be5a498e56, 0x121d073ecd14228a),
        (0x9a6bd15245b5294a, 0xae0aff8e52109c46),
        (0xe0f5a9d5dd84d1c9, 0x1c69bf9a9ae28ccf),
        (0xd850bd78ae79b42d, 0xad32618a178a2a88),
        (0x7b445e2d045fce8e, 0x6f8f8dcbeab95150),
        (0xe807c3b3b4530b9c, 0x661f147886e0ae7e),
        (0xe4eaa669af48f2ab, 0x94eb9e122febd3bf),
        (0x884b576816da6406, 0xf4ae587302f335b9),
        (0xe97d33bfc49d4baa, 0xb76a7c463cfdd40c),
        (0xde6baf1f477f5cea, 0x87226d68d4d71a2b),
        (0xfcfa233218b03929, 0x353dc4524fde2317),
        (0x3efcea5eca56397c, 0x68eb4665559d3e36),
        (0x321cf0467107c677, 0xcfffa94e5f9db6b6),
        (0xdf7e84b86c98a637, 0xde549b30f1f02509),
        (0xf9a8a99de6f005a7, 0xc88c3c922e1a2407),
        (0x4648c4291f7dc43d, 0x11674f90ed769e1e),
        (0x1a0efce601bf620d, 0x2b69d3c551473c0d),
        (0x9e667cca8b46038c, 0xb5e7be4b085efde4),
        (0x9c2caf3bb95b8a52, 0xd92bd2d0e5cc7344),
        (0xad5dc9951e306adf, 0xd83b91c6c80cae97),
        (0x397f852c90891180, 0xdbb6705e289135e7),
        (0xbb31c2c96a3417e6, 0x5b0ccacc34ae5036),
        (0xaa21b7ef3734d927, 0x89df5aecdc211840),
        (0x785e9ced9d7d2389, 0x4273cc66b1c9b1d8),
        (0x657d5ebf91806d4a, 0x4cb150a294fa8911),
        (0x89aee75560f9330e, 0x022949cf3d0efc3f),
        (0xd1190b722b431ce6, 0x1b1563dc4bd8c88e),
        (0xcf82f749f5aee5f7, 0x169b2608a6559037),
        (0x4fa5b7d00f038d43, 0x03641a20adf237a8),
        (0xe304bf4feed390a5, 0x3f4286f2270d7e24),
        (0xc493fe72a1c1e25f, 0x38f5f9ae7cd35cb1),
        (0x6eb306bd5c32972c, 0x7c013a8bd03d13b2),
        (0x94ca6b7a2214c892, 0x9ed32a009f65f09f),
        (0x8c32d80b1150e8dc, 0x871d91d64108d5fb),
        (0x1279dac78449f167, 0xda832592b52be348),
        (0xe94ed572cff23819, 0x362a1da96f16947e),
        (0xfe49ed46961e4874, 0x8e6904163024620f),
        (0xd8d6a998dea5fc57, 0x1d8a3d58d0386400),
        (0xbe1cdcef1cdeec9f, 0x595357d9743676d4),
        (0x53f128eb000c04e3, 0x40e772d8cb73ca66),
        (0xfe1d836a9a009776, 0x7a0f6793591ca9cc),
        (0xa067f52123545358, 0xbd5947f0a447d505),
        (0x4a83502f77d15051, 0x7cbd3f979a063e50),
    ]
}

fn expected_128_1_3() -> [(u64, u64); 64] {
    [
        (0xbea58827b2bc7ee7, 0x013030dd6adb62fd),
        (0xa8edd36004376ffc, 0x63f02f2bcc73055e),
        (0x9b836905097f7875, 0x95ea6a8c54c95b85),
        (0x9ff7dc1efaccc56b, 0x43d7eb1277182348),
        (0x5a282bac714e780c, 0x252cbf8fe7928e9f),
        (0x0c625b3489db28f3, 0x3e849526a4295279),
        (0x10e743f7293dd0dc, 0xf8a68539e8b05109),
        (0xc3e0aaf223b98410, 0x77ab4808c82e2fa6),
        (0xb4dae3d5e1fe12aa, 0x99c7f935ab164f72),
        (0x9439f32c04b8dd81, 0x427c1394000e72f4),
        (0x898e495d1d54aa4f, 0xb42fb287c3a40eba),
        (0xdb914455f39a3b72, 0x4e0c6efc3d63d6b1),
        (0xa819489e85923fe5, 0x658cea9f739506dc),
        (0x1d80eac9c758f8b2, 0x4478656d5903d653),
        (0x7222c9db6862e787, 0x78e3645f66cab026),
        (0x6c52bdb205557ec1, 0x09017e1eeccd2129),
        (0xeb8e511557d9a8d0, 0x93179e3df8b013b5),
        (0x8d66bb3ff9264123, 0xecf7bdfee8125197),
        (0x4d708fb73df042ef, 0x2b09b7169f443c02),
        (0x61f10ac23862f7ab, 0xe9bc26554d4b31b2),
        (0x0bcf90bb112f2c3c, 0xb7e9912e9bca35e3),
        (0x922aa0220f687a2a, 0xefe0ec0fd24951f4),
        (0x3ed41d2330d1a8c9, 0x7937f8576945e642),
        (0xb9ea5c40847b121d, 0x59c5e69b5a77d89f),
        (0xca92fdbc37f84b9e, 0x4ad0841a06d209ce),
        (0xafb4735d961a0339, 0xd2b173f9184d275a),
        (0x4e7ed609120a4d7f, 0x64adcfe138756fd0),
        (0x38cedcfb40e21ee6, 0x93dd2749d24c9f96),
        (0x8cdd0f7bb3a23b4c, 0x1494b289c1955efa),
        (0xddec6f06cad46fe0, 0x866f89d85a8a0654),
        (0x80659c13344ca85c, 0x0607729049f28aa8),
        (0x8b853c5b1c96ea42, 0x1090a7df50e5c317),
        (0xb25778e6de446c40, 0xd317740cf3603194),
        (0xf4fc2013ae7bf5c5, 0x6bc6561de768e8b4),
        (0xe76b675b7a73bf04, 0xf9bff47d0105dec3),
        (0xea07193fc0c96351, 0x4f7b72305ced4410),
        (0xda8e7102f010a137, 0x40f153e49e3f4bd2),
        (0xdad3ed1a387e87b9, 0x10ac23ff753ec308),
        (0x4cdac55e0004507c, 0x9331725c0e44c95a),
        (0x46c6db833724b881, 0x6cb4bd2ad80c9dca),
        (0x13b4b93e54205750, 0x38f9eed9fa3c0bd5),
        (0xe41124e74d595f94, 0xf3d8564487be35d3),
        (0xb27717373e3b9237, 0x02f6627e9dbf7011),
        (0x46966457c8e7d43a, 0x56de624d6c0aeb11),
        (0x514faf446c3991cd, 0x0a3f80d99d8d5785),
        (0x8f867b728e1528fe, 0x58a264daacc90339),
        (0xf0e58c28b810cc40, 0xc8eb0e8ab6c03abc),
        (0x3c9a6940f590146f, 0x3727c9ec204497d4),
        (0xa6841a5eb7f105d5, 0x0803edb28335c403),
        (0x68b42bd7cf731549, 0x6f8d1c0e88a57c2b),
        (0x3f40ab45fe9cd63e, 0x6676a29b95add22f),
        (0x7cb5201bef39e88b, 0x6a2bc2a8b67eba83),
        (0xfe3122b46a180914, 0xcab41ccf6281e1de),
        (0xcf72b64ac2ccf32b, 0x9b06f3f3d2b81f15),
        (0x5c02d682283ab9b9, 0x7b53f713fa568cdb),
        (0x6d20fb9436ca7cd9, 0x2233c350361fbdb8),
        (0x1ae40ba4192eec94, 0x8493c4306b0d94f3),
        (0x5b049a203f60414b, 0x10fedfa341a340e1),
        (0x94f01c9f30cbfb23, 0x6965421bab550789),
        (0x2b8a919056b6d9e7, 0x0e30c8125c2f2f23),
        (0x7b84f3e7f73ce8ad, 0x61ce0db0544bfa36),
        (0x8a1c57eef2c51006, 0xc7f1bd38e5bf0cc8),
        (0x155ddbfb005d1d27, 0x1802b47ca9ce9d5d),
        (0x6f42fe4ee300584c, 0xad6052a70a6b9f07),
    ]
}

fn message(len: usize) -> Vec<u8> {
    let mut msg = Vec::new();
    for i in 0..len {
        msg.push(i as u8);
    }
    msg
}

fn key() -> [u8; 16] {
    let mut key = [0u8; 16];
    for i in 0..16 {
        key[i] = i as u8;
    }
    key
}

#[test]
fn vectors_siphash_2_4() {
    let expected = expected_2_4();
    for len in 0..64 {
        let msg = message(len);
        let mut hasher = sip::SipHasher24::new_with_key(&key());
        hasher.write(&msg);
        assert_eq!(hasher.finish(), expected[len], "length {}", len);
        let mut hasher = sip::SipHasher::new_with_keys(K0, K1);
        hasher.write(&msg);
        assert_eq!(hasher.finish(), expected[len], "length {}", len);
        assert_eq!(sip::SipHasher24::new_with_keys(K0, K1).hash(&msg), expected[len]);
        assert_eq!(sip::SipHasher::new_with_key(&key()).hash(&msg), expected[len]);
    }
}

#[test]
fn vectors_siphash_1_3() {
    let expected = expected_1_3();
    for len in 0..64 {
        let msg = message(len);
        let mut hasher = sip::SipHasher13::new_with_key(&key());
        hasher.write(&msg);
        assert_eq!(hasher.finish(), expected[len], "length {}", len);
        assert_eq!(sip::SipHasher13::new_with_keys(K0, K1).hash(&msg), expected[len]);
    }
}

#[test]
fn vectors_siphash128_2_4() {
    let expected = expected_128_2_4();
    for len in 0..64 {
        let msg = message(len);
        let mut hasher = sip128::SipHasher24::new_with_key(&key());
        hasher.write(&msg);
        let digest = hasher.finish128();
        assert_eq!((digest.h1, digest.h2), expected[len], "length {}", len);
        let mut hasher = sip128::SipHasher::new_with_keys(K0, K1);
        hasher.write(&msg);
        let digest = hasher.finish128();
        assert_eq!((digest.h1, digest.h2), expected[len], "length {}", len);
        let digest = sip128::SipHasher24::new_with_keys(K0, K1).hash(&msg);
        assert_eq!((digest.h1, digest.h2), expected[len]);
        let digest = sip128::SipHasher::new_with_key(&key()).hash(&msg);
        assert_eq!((digest.h1, digest.h2), expected[len]);
    }
}

#[test]
fn vectors_siphash128_1_3() {
    let expected = expected_128_1_3();
    for len in 0..64 {
        let msg = message(len);
        let mut hasher = sip128::SipHasher13::new_with_key(&key());
        hasher.write(&msg);
        let digest = hasher.finish128();
        assert_eq!((digest.h1, digest.h2), expected[len], "length {}", len);
        let digest = sip128::SipHasher13::new_with_keys(K0, K1).hash(&msg);
        assert_eq!((digest.h1, digest.h2), expected[len]);
    }
}

#[test]
fn sip24_empty_message() {
    let mut hasher = sip::SipHasher24::new_with_keys(K0, K1);
    hasher.write(b"");
    assert_eq!(
        hasher.finish().to_le_bytes(),
        [0x31, 0x0e, 0x0e, 0xdd, 0x47, 0xdb, 0x6f, 0x72]
    );
}

#[test]
fn sip24_single_zero_byte() {
    let mut hasher = sip::SipHasher24::new_with_keys(K0, K1);
    hasher.write(&[0x00]);
    assert_eq!(
        hasher.finish().to_le_bytes(),
        [0xfd, 0x67, 0xdc, 0x93, 0xc5, 0x39, 0xf8, 0x74]
    );
}

#[test]
fn sip24_fifteen_bytes() {
    let mut hasher = sip::SipHasher24::new_with_keys(K0, K1);
    hasher.write(&message(15));
    assert_eq!(hasher.finish(), 0xa129ca6149be45e5);
    assert_eq!(
        hasher.finish().to_le_bytes(),
        [0xe5, 0x45, 0xbe, 0x49, 0x61, 0xca, 0x29, 0xa1]
    );
}

#[test]
fn sip24_128_empty_message() {
    let hasher = sip128::SipHasher24::new_with_keys(K0, K1);
    let digest = hasher.finish128();
    assert_eq!(
        digest.as_bytes(),
        [
            0xa3, 0x81, 0x7f, 0x04, 0xba, 0x25, 0xa8, 0xe6, 0x6d, 0xf6, 0x72, 0x14, 0xc7, 0x55,
            0x02, 0x93
        ]
    );
}

#[test]
fn sip13_zero_key_empty_message() {
    let hasher = sip::SipHasher13::new();
    assert_eq!(hasher.finish(), 0xd1fba762150c532c);
    assert_eq!(sip::SipHasher13::new_with_keys(0, 0).finish(), hasher.finish());
    assert_eq!(sip::SipHasher13::new().hash(b""), 0xd1fba762150c532c);
}
