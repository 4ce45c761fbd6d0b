use vstd::prelude::*;

verus! {

/// The publisher a cartridge header names, by its old one-byte code or its
/// new two-character code.
#[derive(Clone, Copy, PartialEq, Eq, Structural, Debug)]
pub enum Licensee {
    /// The code 00: no licensee.
    NoneListed,
    Unknown,
    Capcom,
    ElectronicArts,
    HudsonSoft,
    BAI,
    KSS,
    Pow,
    PCMComplete,
    SanX,
    KemcoJapan,
    Seta,
    Viacom,
    Nintendo,
    Bandai,
    OceanAcclaim,
    Konami,
    Taito,
    Banpresto,
    UbiSoft,
    Atlus,
    MalibuInteractive,
    Angel,
    Irem,
    Absolute,
    AcclaimEntertainment,
    Activision,
    AmericanSammy,
    HiTechEntertainment,
    LJN,
    Matchbox,
    Mattel,
    MiltonBradley,
    TitusInteractive,
    LucasfilmGames,
    Infogrames,
    Interplay,
    Broderbund,
    SalesCurveLimited,
    Accolade,
    Lozc,
    TokumaShotenIntermedia,
    TsukudaOriginal,
    VideoSystem,
    Yonezawa,
    Kaneko,
    PackInSoft,
    BottomUp,
    KonamiYuGiOh,
    HOTB,
    Jaleco,
    CoconutsJapan,
    EliteSystems,
    ITCEntertainment,
    Yanoman,
    JapanClary,
    VirginGamesLtd,
    KotobukiSystems,
    HectorSoft,
    Entertainmenti,
    Gremlin,
    SpectrumHoloby,
    USGold,
    GameTek,
    ParkPlace,
    Mindscape,
    Romstar,
    NaxatSoft,
    Tradewest,
    OceanSoftware,
    ElectroBrain,
    SculpturedSoftware,
    THQ,
    TriffixEntertainment,
    Microprose,
    Kemco,
    MisawaEntertainment,
    BulletProofSoftware,
    VicTokai,
    Ape,
    IMax,
    ChunsoftCo,
    TsubarayaProductionsCo,
    Varie,
    Arc,
    NihonBussan,
    Tecmo,
    Imagineer,
    Nova,
    HoriElectric,
    Kawada,
    Takara,
    TechnosJapan,
    ToeiAnimation,
    Toho,
    Namco,
    ASCIICorporation,
    SquareEnix,
    HALLaboratory,
    SNK,
    PonyCanyon,
    CultureBrain,
    Sunsoft,
    SonyImagesoft,
    Sammy,
    Squaresoft,
    DataEast,
    Tonkinhouse,
    Koei,
    UFL,
    Ultra,
    Vap,
    UseCorporation,
    Meldac,
    Sofel,
    Quest,
    SigmaEnterprises,
    ASKKodanshaCo,
    CopyaSystem,
    Tomy,
    NCS,
    Human,
    Altron,
    TowaChiki,
    Yutaka,
    Epoch,
    Athena,
    AsmikACEEntertainment,
    Natsume,
    KingRecords,
    Epic,
    IGS,
    AWave,
    ExtremeEntertainment,
    MTO,
    Kodansha,
}

/// The licensee a new (two-character) code names; codes not in the table
/// are `Unknown`.
pub open spec fn new_licensee_of(c0: char, c1: char) -> Licensee {
    if c0 == '0' && c1 == '0' {
        Licensee::NoneListed
    } else if c0 == '0' && c1 == '1' {
        Licensee::Nintendo
    } else if c0 == '0' && c1 == '8' {
        Licensee::Capcom
    } else if c0 == '1' && c1 == '3' {
        Licensee::ElectronicArts
    } else if c0 == '1' && c1 == '8' {
        Licensee::HudsonSoft
    } else if c0 == '1' && c1 == '9' {
        Licensee::BAI
    } else if c0 == '2' && c1 == '0' {
        Licensee::KSS
    } else if c0 == '2' && c1 == '2' {
        Licensee::Pow
    } else if c0 == '2' && c1 == '4' {
        Licensee::PCMComplete
    } else if c0 == '2' && c1 == '5' {
        Licensee::SanX
    } else if c0 == '2' && c1 == '8' {
        Licensee::KemcoJapan
    } else if c0 == '2' && c1 == '9' {
        Licensee::Seta
    } else if c0 == '3' && c1 == '0' {
        Licensee::Viacom
    } else if c0 == '3' && c1 == '1' {
        Licensee::Nintendo
    } else if c0 == '3' && c1 == '2' {
        Licensee::Bandai
    } else if c0 == '3' && c1 == '3' {
        Licensee::OceanAcclaim
    } else if c0 == '3' && c1 == '4' {
        Licensee::Konami
    } else if c0 == '3' && c1 == '5' {
        Licensee::HectorSoft
    } else if c0 == '3' && c1 == '7' {
        Licensee::Taito
    } else if c0 == '3' && c1 == '8' {
        Licensee::HudsonSoft
    } else if c0 == '3' && c1 == '9' {
        Licensee::Banpresto
    } else if c0 == '4' && c1 == '1' {
        Licensee::UbiSoft
    } else if c0 == '4' && c1 == '2' {
        Licensee::Atlus
    } else if c0 == '4' && c1 == '4' {
        Licensee::MalibuInteractive
    } else if c0 == '4' && c1 == '6' {
        Licensee::Angel
    } else if c0 == '4' && c1 == '7' {
        Licensee::BulletProofSoftware
    } else if c0 == '4' && c1 == '9' {
        Licensee::Irem
    } else if c0 == '5' && c1 == '0' {
        Licensee::Absolute
    } else if c0 == '5' && c1 == '1' {
        Licensee::AcclaimEntertainment
    } else if c0 == '5' && c1 == '2' {
        Licensee::Activision
    } else if c0 == '5' && c1 == '3' {
        Licensee::AmericanSammy
    } else if c0 == '5' && c1 == '4' {
        Licensee::Konami
    } else if c0 == '5' && c1 == '5' {
        Licensee::HiTechEntertainment
    } else if c0 == '5' && c1 == '6' {
        Licensee::LJN
    } else if c0 == '5' && c1 == '7' {
        Licensee::Matchbox
    } else if c0 == '5' && c1 == '8' {
        Licensee::Mattel
    } else if c0 == '5' && c1 == '9' {
        Licensee::MiltonBradley
    } else if c0 == '6' && c1 == '0' {
        Licensee::TitusInteractive
    } else if c0 == '6' && c1 == '1' {
        Licensee::VirginGamesLtd
    } else if c0 == '6' && c1 == '4' {
        Licensee::LucasfilmGames
    } else if c0 == '6' && c1 == '7' {
        Licensee::OceanSoftware
    } else if c0 == '6' && c1 == '9' {
        Licensee::ElectronicArts
    } else if c0 == '7' && c1 == '0' {
        Licensee::Infogrames
    } else if c0 == '7' && c1 == '1' {
        Licensee::Interplay
    } else if c0 == '7' && c1 == '2' {
        Licensee::Broderbund
    } else if c0 == '7' && c1 == '3' {
        Licensee::SculpturedSoftware
    } else if c0 == '7' && c1 == '5' {
        Licensee::SalesCurveLimited
    } else if c0 == '7' && c1 == '8' {
        Licensee::THQ
    } else if c0 == '7' && c1 == '9' {
        Licensee::Accolade
    } else if c0 == '8' && c1 == '0' {
        Licensee::MisawaEntertainment
    } else if c0 == '8' && c1 == '3' {
        Licensee::Lozc
    } else if c0 == '8' && c1 == '6' {
        Licensee::TokumaShotenIntermedia
    } else if c0 == '8' && c1 == '7' {
        Licensee::TsukudaOriginal
    } else if c0 == '9' && c1 == '1' {
        Licensee::ChunsoftCo
    } else if c0 == '9' && c1 == '2' {
        Licensee::VideoSystem
    } else if c0 == '9' && c1 == '3' {
        Licensee::OceanAcclaim
    } else if c0 == '9' && c1 == '5' {
        Licensee::Varie
    } else if c0 == '9' && c1 == '6' {
        Licensee::Yonezawa
    } else if c0 == '9' && c1 == '7' {
        Licensee::Kaneko
    } else if c0 == '9' && c1 == '9' {
        Licensee::PackInSoft
    } else if c0 == '9' && c1 == 'H' {
        Licensee::BottomUp
    } else if c0 == 'A' && c1 == '4' {
        Licensee::KonamiYuGiOh
    } else if c0 == 'B' && c1 == 'L' {
        Licensee::MTO
    } else if c0 == 'D' && c1 == 'K' {
        Licensee::Kodansha
    } else {
        Licensee::Unknown
    }
}

/// The licensee a new code string names: a two-character code looked up in
/// the table, anything else `Unknown`.
pub open spec fn new_licensee_spec(s: Seq<char>) -> Licensee {
    if s.len() == 2 {
        new_licensee_of(s[0], s[1])
    } else {
        Licensee::Unknown
    }
}

/// The licensee an old (one-byte) code names; 0x33 defers to the new code
/// and gives `None`, codes not in the table are `Unknown`.
pub open spec fn old_licensee_spec(v: u8) -> Option<Licensee> {
    if v == 0x00 {
        Some(Licensee::NoneListed)
    } else if v == 0x01 {
        Some(Licensee::Nintendo)
    } else if v == 0x08 {
        Some(Licensee::Capcom)
    } else if v == 0x09 {
        Some(Licensee::HOTB)
    } else if v == 0x0A {
        Some(Licensee::Jaleco)
    } else if v == 0x0B {
        Some(Licensee::CoconutsJapan)
    } else if v == 0x0C {
        Some(Licensee::EliteSystems)
    } else if v == 0x13 {
        Some(Licensee::ElectronicArts)
    } else if v == 0x18 {
        Some(Licensee::HudsonSoft)
    } else if v == 0x19 {
        Some(Licensee::ITCEntertainment)
    } else if v == 0x1A {
        Some(Licensee::Yanoman)
    } else if v == 0x1D {
        Some(Licensee::JapanClary)
    } else if v == 0x1F {
        Some(Licensee::VirginGamesLtd)
    } else if v == 0x24 {
        Some(Licensee::PCMComplete)
    } else if v == 0x25 {
        Some(Licensee::SanX)
    } else if v == 0x28 {
        Some(Licensee::KotobukiSystems)
    } else if v == 0x29 {
        Some(Licensee::Seta)
    } else if v == 0x30 {
        Some(Licensee::Infogrames)
    } else if v == 0x31 {
        Some(Licensee::Nintendo)
    } else if v == 0x32 {
        Some(Licensee::Bandai)
    } else if v == 0x33 {
        None
    } else if v == 0x34 {
        Some(Licensee::Konami)
    } else if v == 0x35 {
        Some(Licensee::HectorSoft)
    } else if v == 0x38 {
        Some(Licensee::Capcom)
    } else if v == 0x39 {
        Some(Licensee::Banpresto)
    } else if v == 0x3C {
        Some(Licensee::Entertainmenti)
    } else if v == 0x3E {
        Some(Licensee::Gremlin)
    } else if v == 0x41 {
        Some(Licensee::UbiSoft)
    } else if v == 0x42 {
        Some(Licensee::Atlus)
    } else if v == 0x44 {
        Some(Licensee::MalibuInteractive)
    } else if v == 0x46 {
        Some(Licensee::Angel)
    } else if v == 0x47 {
        Some(Licensee::SpectrumHoloby)
    } else if v == 0x49 {
        Some(Licensee::Irem)
    } else if v == 0x4A {
        Some(Licensee::VirginGamesLtd)
    } else if v == 0x4D {
        Some(Licensee::MalibuInteractive)
    } else if v == 0x4F {
        Some(Licensee::USGold)
    } else if v == 0x50 {
        Some(Licensee::Absolute)
    } else if v == 0x51 {
        Some(Licensee::AcclaimEntertainment)
    } else if v == 0x52 {
        Some(Licensee::Activision)
    } else if v == 0x53 {
        Some(Licensee::AmericanSammy)
    } else if v == 0x54 {
        Some(Licensee::GameTek)
    } else if v == 0x55 {
        Some(Licensee::ParkPlace)
    } else if v == 0x56 {
        Some(Licensee::LJN)
    } else if v == 0x57 {
        Some(Licensee::Matchbox)
    } else if v == 0x59 {
        Some(Licensee::MiltonBradley)
    } else if v == 0x5A {
        Some(Licensee::Mindscape)
    } else if v == 0x5B {
        Some(Licensee::Romstar)
    } else if v == 0x5C {
        Some(Licensee::NaxatSoft)
    } else if v == 0x5D {
        Some(Licensee::Tradewest)
    } else if v == 0x60 {
        Some(Licensee::TitusInteractive)
    } else if v == 0x61 {
        Some(Licensee::VirginGamesLtd)
    } else if v == 0x67 {
        Some(Licensee::OceanSoftware)
    } else if v == 0x69 {
        Some(Licensee::ElectronicArts)
    } else if v == 0x6E {
        Some(Licensee::EliteSystems)
    } else if v == 0x6F {
        Some(Licensee::ElectroBrain)
    } else if v == 0x70 {
        Some(Licensee::Infogrames)
    } else if v == 0x71 {
        Some(Licensee::Interplay)
    } else if v == 0x72 {
        Some(Licensee::Broderbund)
    } else if v == 0x73 {
        Some(Licensee::SculpturedSoftware)
    } else if v == 0x75 {
        Some(Licensee::SalesCurveLimited)
    } else if v == 0x78 {
        Some(Licensee::THQ)
    } else if v == 0x79 {
        Some(Licensee::Accolade)
    } else if v == 0x7A {
        Some(Licensee::TriffixEntertainment)
    } else if v == 0x7C {
        Some(Licensee::Microprose)
    } else if v == 0x7F {
        Some(Licensee::Kemco)
    } else if v == 0x80 {
        Some(Licensee::MisawaEntertainment)
    } else if v == 0x83 {
        Some(Licensee::Lozc)
    } else if v == 0x86 {
        Some(Licensee::TokumaShotenIntermedia)
    } else if v == 0x8B {
        Some(Licensee::BulletProofSoftware)
    } else if v == 0x8C {
        Some(Licensee::VicTokai)
    } else if v == 0x8E {
        Some(Licensee::Ape)
    } else if v == 0x8F {
        Some(Licensee::IMax)
    } else if v == 0x91 {
        Some(Licensee::ChunsoftCo)
    } else if v == 0x92 {
        Some(Licensee::VideoSystem)
    } else if v == 0x93 {
        Some(Licensee::TsubarayaProductionsCo)
    } else if v == 0x95 {
        Some(Licensee::Varie)
    } else if v == 0x96 {
        Some(Licensee::Yonezawa)
    } else if v == 0x97 {
        Some(Licensee::Kaneko)
    } else if v == 0x99 {
        Some(Licensee::Arc)
    } else if v == 0x9A {
        Some(Licensee::NihonBussan)
    } else if v == 0x9B {
        Some(Licensee::Tecmo)
    } else if v == 0x9C {
        Some(Licensee::Imagineer)
    } else if v == 0x9D {
        Some(Licensee::Banpresto)
    } else if v == 0x9F {
        Some(Licensee::Nova)
    } else if v == 0xA1 {
        Some(Licensee::HoriElectric)
    } else if v == 0xA2 {
        Some(Licensee::Bandai)
    } else if v == 0xA4 {
        Some(Licensee::Konami)
    } else if v == 0xA6 {
        Some(Licensee::Kawada)
    } else if v == 0xA7 {
        Some(Licensee::Takara)
    } else if v == 0xA9 {
        Some(Licensee::TechnosJapan)
    } else if v == 0xAA {
        Some(Licensee::Broderbund)
    } else if v == 0xAC {
        Some(Licensee::ToeiAnimation)
    } else if v == 0xAD {
        Some(Licensee::Toho)
    } else if v == 0xAF {
        Some(Licensee::Namco)
    } else if v == 0xB0 {
        Some(Licensee::AcclaimEntertainment)
    } else if v == 0xB1 {
        Some(Licensee::ASCIICorporation)
    } else if v == 0xB2 {
        Some(Licensee::Bandai)
    } else if v == 0xB4 {
        Some(Licensee::SquareEnix)
    } else if v == 0xB6 {
        Some(Licensee::HALLaboratory)
    } else if v == 0xB7 {
        Some(Licensee::SNK)
    } else if v == 0xB9 {
        Some(Licensee::PonyCanyon)
    } else if v == 0xBA {
        Some(Licensee::CultureBrain)
    } else if v == 0xBB {
        Some(Licensee::Sammy)
    } else if v == 0xBD {
        Some(Licensee::SonyImagesoft)
    } else if v == 0xBF {
        Some(Licensee::Sammy)
    } else if v == 0xC0 {
        Some(Licensee::Taito)
    } else if v == 0xC2 {
        Some(Licensee::Kemco)
    } else if v == 0xC3 {
        Some(Licensee::Squaresoft)
    } else if v == 0xC4 {
        Some(Licensee::TokumaShotenIntermedia)
    } else if v == 0xC5 {
        Some(Licensee::DataEast)
    } else if v == 0xC6 {
        Some(Licensee::Tonkinhouse)
    } else if v == 0xC8 {
        Some(Licensee::Koei)
    } else if v == 0xC9 {
        Some(Licensee::UFL)
    } else if v == 0xCA {
        Some(Licensee::Ultra)
    } else if v == 0xCB {
        Some(Licensee::Vap)
    } else if v == 0xCC {
        Some(Licensee::UseCorporation)
    } else if v == 0xCD {
        Some(Licensee::Meldac)
    } else if v == 0xCE {
        Some(Licensee::PonyCanyon)
    } else if v == 0xCF {
        Some(Licensee::Angel)
    } else if v == 0xD0 {
        Some(Licensee::Taito)
    } else if v == 0xD1 {
        Some(Licensee::Sofel)
    } else if v == 0xD2 {
        Some(Licensee::Quest)
    } else if v == 0xD3 {
        Some(Licensee::SigmaEnterprises)
    } else if v == 0xD4 {
        Some(Licensee::ASKKodanshaCo)
    } else if v == 0xD6 {
        Some(Licensee::NaxatSoft)
    } else if v == 0xD7 {
        Some(Licensee::CopyaSystem)
    } else if v == 0xD9 {
        Some(Licensee::Banpresto)
    } else if v == 0xDA {
        Some(Licensee::Tomy)
    } else if v == 0xDB {
        Some(Licensee::LJN)
    } else if v == 0xDD {
        Some(Licensee::NCS)
    } else if v == 0xDE {
        Some(Licensee::Human)
    } else if v == 0xDF {
        Some(Licensee::Altron)
    } else if v == 0xE0 {
        Some(Licensee::Jaleco)
    } else if v == 0xE1 {
        Some(Licensee::TowaChiki)
    } else if v == 0xE2 {
        Some(Licensee::Yutaka)
    } else if v == 0xE3 {
        Some(Licensee::Varie)
    } else if v == 0xE5 {
        Some(Licensee::Epoch)
    } else if v == 0xE7 {
        Some(Licensee::Athena)
    } else if v == 0xE8 {
        Some(Licensee::AsmikACEEntertainment)
    } else if v == 0xE9 {
        Some(Licensee::Natsume)
    } else if v == 0xEA {
        Some(Licensee::KingRecords)
    } else if v == 0xEB {
        Some(Licensee::Atlus)
    } else if v == 0xEC {
        Some(Licensee::Epic)
    } else if v == 0xEE {
        Some(Licensee::IGS)
    } else if v == 0xF0 {
        Some(Licensee::AWave)
    } else if v == 0xF3 {
        Some(Licensee::ExtremeEntertainment)
    } else if v == 0xFF {
        Some(Licensee::LJN)
    } else {
        Some(Licensee::Unknown)
    }
}

impl Licensee {
    pub fn new_licensee(v: &str) -> (r: Self)
        ensures
            r == new_licensee_spec(v@),
    {
        if v.unicode_len() != 2 {
            return Licensee::Unknown;
        }
        let c0 = v.get_char(0);
        let c1 = v.get_char(1);
        match (c0, c1) {
            ('0', '0') => Licensee::NoneListed,
            ('0', '1') => Licensee::Nintendo,
            ('0', '8') => Licensee::Capcom,
            ('1', '3') => Licensee::ElectronicArts,
            ('1', '8') => Licensee::HudsonSoft,
            ('1', '9') => Licensee::BAI,
            ('2', '0') => Licensee::KSS,
            ('2', '2') => Licensee::Pow,
            ('2', '4') => Licensee::PCMComplete,
            ('2', '5') => Licensee::SanX,
            ('2', '8') => Licensee::KemcoJapan,
            ('2', '9') => Licensee::Seta,
            ('3', '0') => Licensee::Viacom,
            ('3', '1') => Licensee::Nintendo,
            ('3', '2') => Licensee::Bandai,
            ('3', '3') => Licensee::OceanAcclaim,
            ('3', '4') => Licensee::Konami,
            ('3', '5') => Licensee::HectorSoft,
            ('3', '7') => Licensee::Taito,
            ('3', '8') => Licensee::HudsonSoft,
            ('3', '9') => Licensee::Banpresto,
            ('4', '1') => Licensee::UbiSoft,
            ('4', '2') => Licensee::Atlus,
            ('4', '4') => Licensee::MalibuInteractive,
            ('4', '6') => Licensee::Angel,
            ('4', '7') => Licensee::BulletProofSoftware,
            ('4', '9') => Licensee::Irem,
            ('5', '0') => Licensee::Absolute,
            ('5', '1') => Licensee::AcclaimEntertainment,
            ('5', '2') => Licensee::Activision,
            ('5', '3') => Licensee::AmericanSammy,
            ('5', '4') => Licensee::Konami,
            ('5', '5') => Licensee::HiTechEntertainment,
            ('5', '6') => Licensee::LJN,
            ('5', '7') => Licensee::Matchbox,
            ('5', '8') => Licensee::Mattel,
            ('5', '9') => Licensee::MiltonBradley,
            ('6', '0') => Licensee::TitusInteractive,
            ('6', '1') => Licensee::VirginGamesLtd,
            ('6', '4') => Licensee::LucasfilmGames,
            ('6', '7') => Licensee::OceanSoftware,
            ('6', '9') => Licensee::ElectronicArts,
            ('7', '0') => Licensee::Infogrames,
            ('7', '1') => Licensee::Interplay,
            ('7', '2') => Licensee::Broderbund,
            ('7', '3') => Licensee::SculpturedSoftware,
            ('7', '5') => Licensee::SalesCurveLimited,
            ('7', '8') => Licensee::THQ,
            ('7', '9') => Licensee::Accolade,
            ('8', '0') => Licensee::MisawaEntertainment,
            ('8', '3') => Licensee::Lozc,
            ('8', '6') => Licensee::TokumaShotenIntermedia,
            ('8', '7') => Licensee::TsukudaOriginal,
            ('9', '1') => Licensee::ChunsoftCo,
            ('9', '2') => Licensee::VideoSystem,
            ('9', '3') => Licensee::OceanAcclaim,
            ('9', '5') => Licensee::Varie,
            ('9', '6') => Licensee::Yonezawa,
            ('9', '7') => Licensee::Kaneko,
            ('9', '9') => Licensee::PackInSoft,
            ('9', 'H') => Licensee::BottomUp,
            ('A', '4') => Licensee::KonamiYuGiOh,
            ('B', 'L') => Licensee::MTO,
            ('D', 'K') => Licensee::Kodansha,
            _ => Licensee::Unknown,
        }
    }

    pub fn old_licensee(v: u8) -> (r: Option<Self>)
        ensures
            r == old_licensee_spec(v),
    {
        match v {
            0x00 => Some(Licensee::NoneListed),
            0x01 => Some(Licensee::Nintendo),
            0x08 => Some(Licensee::Capcom),
            0x09 => Some(Licensee::HOTB),
            0x0A => Some(Licensee::Jaleco),
            0x0B => Some(Licensee::CoconutsJapan),
            0x0C => Some(Licensee::EliteSystems),
            0x13 => Some(Licensee::ElectronicArts),
            0x18 => Some(Licensee::HudsonSoft),
            0x19 => Some(Licensee::ITCEntertainment),
            0x1A => Some(Licensee::Yanoman),
            0x1D => Some(Licensee::JapanClary),
            0x1F => Some(Licensee::VirginGamesLtd),
            0x24 => Some(Licensee::PCMComplete),
            0x25 => Some(Licensee::SanX),
            0x28 => Some(Licensee::KotobukiSystems),
            0x29 => Some(Licensee::Seta),
            0x30 => Some(Licensee::Infogrames),
            0x31 => Some(Licensee::Nintendo),
            0x32 => Some(Licensee::Bandai),
            // Indicates that the new licensee code should be used.
            0x33 => None,
            0x34 => Some(Licensee::Konami),
            0x35 => Some(Licensee::HectorSoft),
            0x38 => Some(Licensee::Capcom),
            0x39 => Some(Licensee::Banpresto),
            0x3C => Some(Licensee::Entertainmenti),
            0x3E => Some(Licensee::Gremlin),
            0x41 => Some(Licensee::UbiSoft),
            0x42 => Some(Licensee::Atlus),
            0x44 => Some(Licensee::MalibuInteractive),
            0x46 => Some(Licensee::Angel),
            0x47 => Some(Licensee::SpectrumHoloby),
            0x49 => Some(Licensee::Irem),
            0x4A => Some(Licensee::VirginGamesLtd),
            0x4D => Some(Licensee::MalibuInteractive),
            0x4F => Some(Licensee::USGold),
            0x50 => Some(Licensee::Absolute),
            0x51 => Some(Licensee::AcclaimEntertainment),
            0x52 => Some(Licensee::Activision),
            0x53 => Some(Licensee::AmericanSammy),
            0x54 => Some(Licensee::GameTek),
            0x55 => Some(Licensee::ParkPlace),
            0x56 => Some(Licensee::LJN),
            0x57 => Some(Licensee::Matchbox),
            0x59 => Some(Licensee::MiltonBradley),
            0x5A => Some(Licensee::Mindscape),
            0x5B => Some(Licensee::Romstar),
            0x5C => Some(Licensee::NaxatSoft),
            0x5D => Some(Licensee::Tradewest),
            0x60 => Some(Licensee::TitusInteractive),
            0x61 => Some(Licensee::VirginGamesLtd),
            0x67 => Some(Licensee::OceanSoftware),
            0x69 => Some(Licensee::ElectronicArts),
            0x6E => Some(Licensee::EliteSystems),
            0x6F => Some(Licensee::ElectroBrain),
            0x70 => Some(Licensee::Infogrames),
            0x71 => Some(Licensee::Interplay),
            0x72 => Some(Licensee::Broderbund),
            0x73 => Some(Licensee::SculpturedSoftware),
            0x75 => Some(Licensee::SalesCurveLimited),
            0x78 => Some(Licensee::THQ),
            0x79 => Some(Licensee::Accolade),
            0x7A => Some(Licensee::TriffixEntertainment),
            0x7C => Some(Licensee::Microprose),
            0x7F => Some(Licensee::Kemco),
            0x80 => Some(Licensee::MisawaEntertainment),
            0x83 => Some(Licensee::Lozc),
            0x86 => Some(Licensee::TokumaShotenIntermedia),
            0x8B => Some(Licensee::BulletProofSoftware),
            0x8C => Some(Licensee::VicTokai),
            0x8E => Some(Licensee::Ape),
            0x8F => Some(Licensee::IMax),
            0x91 => Some(Licensee::ChunsoftCo),
            0x92 => Some(Licensee::VideoSystem),
            0x93 => Some(Licensee::TsubarayaProductionsCo),
            0x95 => Some(Licensee::Varie),
            0x96 => Some(Licensee::Yonezawa),
            0x97 => Some(Licensee::Kaneko),
            0x99 => Some(Licensee::Arc),
            0x9A => Some(Licensee::NihonBussan),
            0x9B => Some(Licensee::Tecmo),
            0x9C => Some(Licensee::Imagineer),
            0x9D => Some(Licensee::Banpresto),
            0x9F => Some(Licensee::Nova),
            0xA1 => Some(Licensee::HoriElectric),
            0xA2 => Some(Licensee::Bandai),
            0xA4 => Some(Licensee::Konami),
            0xA6 => Some(Licensee::Kawada),
            0xA7 => Some(Licensee::Takara),
            0xA9 => Some(Licensee::TechnosJapan),
            0xAA => Some(Licensee::Broderbund),
            0xAC => Some(Licensee::ToeiAnimation),
            0xAD => Some(Licensee::Toho),
            0xAF => Some(Licensee::Namco),
            0xB0 => Some(Licensee::AcclaimEntertainment),
            0xB1 => Some(Licensee::ASCIICorporation),
            0xB2 => Some(Licensee::Bandai),
            0xB4 => Some(Licensee::SquareEnix),
            0xB6 => Some(Licensee::HALLaboratory),
            0xB7 => Some(Licensee::SNK),
            0xB9 => Some(Licensee::PonyCanyon),
            0xBA => Some(Licensee::CultureBrain),
            0xBB => Some(Licensee::Sammy),
            0xBD => Some(Licensee::SonyImagesoft),
            0xBF => Some(Licensee::Sammy),
            0xC0 => Some(Licensee::Taito),
            0xC2 => Some(Licensee::Kemco),
            0xC3 => Some(Licensee::Squaresoft),
            0xC4 => Some(Licensee::TokumaShotenIntermedia),
            0xC5 => Some(Licensee::DataEast),
            0xC6 => Some(Licensee::Tonkinhouse),
            0xC8 => Some(Licensee::Koei),
            0xC9 => Some(Licensee::UFL),
            0xCA => Some(Licensee::Ultra),
            0xCB => Some(Licensee::Vap),
            0xCC => Some(Licensee::UseCorporation),
            0xCD => Some(Licensee::Meldac),
            0xCE => Some(Licensee::PonyCanyon),
            0xCF => Some(Licensee::Angel),
            0xD0 => Some(Licensee::Taito),
            0xD1 => Some(Licensee::Sofel),
            0xD2 => Some(Licensee::Quest),
            0xD3 => Some(Licensee::SigmaEnterprises),
            0xD4 => Some(Licensee::ASKKodanshaCo),
            0xD6 => Some(Licensee::NaxatSoft),
            0xD7 => Some(Licensee::CopyaSystem),
            0xD9 => Some(Licensee::Banpresto),
            0xDA => Some(Licensee::Tomy),
            0xDB => Some(Licensee::LJN),
            0xDD => Some(Licensee::NCS),
            0xDE => Some(Licensee::Human),
            0xDF => Some(Licensee::Altron),
            0xE0 => Some(Licensee::Jaleco),
            0xE1 => Some(Licensee::TowaChiki),
            0xE2 => Some(Licensee::Yutaka),
            0xE3 => Some(Licensee::Varie),
            0xE5 => Some(Licensee::Epoch),
            0xE7 => Some(Licensee::Athena),
            0xE8 => Some(Licensee::AsmikACEEntertainment),
            0xE9 => Some(Licensee::Natsume),
            0xEA => Some(Licensee::KingRecords),
            0xEB => Some(Licensee::Atlus),
            0xEC => Some(Licensee::Epic),
            0xEE => Some(Licensee::IGS),
            0xF0 => Some(Licensee::AWave),
            0xF3 => Some(Licensee::ExtremeEntertainment),
            0xFF => Some(Licensee::LJN),
            _ => Some(Licensee::Unknown),
        }
    }

    /// The publisher's name as the header display shows it.
    pub fn name(&self) -> (r: &'static str)
        ensures
            r@ == licensee_name(*self)@,
    {
        match self {
            Licensee::NoneListed => "None",
            Licensee::Unknown => "Unknown",
            Licensee::Capcom => "Capcom",
            Licensee::ElectronicArts => "EA (Electronic Arts)",
            Licensee::HudsonSoft => "Hudson Soft",
            Licensee::BAI => "B-AI",
            Licensee::KSS => "KSS",
            Licensee::Pow => "Pow",
            Licensee::PCMComplete => "PCM Complete",
            Licensee::SanX => "San-X",
            Licensee::KemcoJapan => "Kemco Japan",
            Licensee::Seta => "seta",
            Licensee::Viacom => "Viacom",
            Licensee::Nintendo => "Nintendo",
            Licensee::Bandai => "Bandai",
            Licensee::OceanAcclaim => "Ocean/Acclaim",
            Licensee::Konami => "Konami",
            Licensee::Taito => "Taito",
            Licensee::Banpresto => "Banpresto",
            Licensee::UbiSoft => "Ubi Soft",
            Licensee::Atlus => "Atlus",
            Licensee::MalibuInteractive => "Mailbu Interactive",
            Licensee::Angel => "Angel",
            Licensee::Irem => "Irem",
            Licensee::Absolute => "Absolute",
            Licensee::AcclaimEntertainment => "Acclaim Entertainment",
            Licensee::Activision => "Activision",
            Licensee::AmericanSammy => "American Sammy",
            Licensee::HiTechEntertainment => "Hi Tech Entertainment",
            Licensee::LJN => "LJN",
            Licensee::Matchbox => "Matchbox",
            Licensee::Mattel => "Mattel",
            Licensee::MiltonBradley => "Milton Bradley",
            Licensee::TitusInteractive => "Titus",
            Licensee::LucasfilmGames => "Lucasfilm Games",
            Licensee::Infogrames => "Infogrames",
            Licensee::Interplay => "Interplay",
            Licensee::Broderbund => "Broderbund",
            Licensee::SalesCurveLimited => "The Sales Curve Limited",
            Licensee::THQ => "THQ",
            Licensee::Accolade => "Accolade",
            Licensee::Lozc => "lozc",
            Licensee::TokumaShotenIntermedia => "Tokuma Shoten Intermedia",
            Licensee::TsukudaOriginal => "Tsukunda Original",
            Licensee::VideoSystem => "Video System",
            Licensee::Yonezawa => "Yonezawa",
            Licensee::Kaneko => "Kaneko",
            Licensee::PackInSoft => "Pack-In-Soft",
            Licensee::BottomUp => "Bottom Up",
            Licensee::KonamiYuGiOh => "Konami (Yu-Gi-Oh!)",
            Licensee::HOTB => "HOT-B",
            Licensee::Jaleco => "Jaleco",
            Licensee::CoconutsJapan => "Coconuts Japan",
            Licensee::EliteSystems => "Elite Systems",
            Licensee::ITCEntertainment => "ITC Entertainment",
            Licensee::Yanoman => "Yanoman",
            Licensee::JapanClary => "Japan Clary",
            Licensee::VirginGamesLtd => "Virgin Games Ltd.",
            Licensee::KotobukiSystems => "Kotobuki Systems",
            Licensee::HectorSoft => "HectorSoft",
            Licensee::Entertainmenti => "Entertainment i",
            Licensee::Gremlin => "Gremlin",
            Licensee::SpectrumHoloby => "Spectrum Holoby",
            Licensee::USGold => "U.S. Gold",
            Licensee::GameTek => "GameTek",
            Licensee::ParkPlace => "Park Place",
            Licensee::Mindscape => "Mindscape",
            Licensee::Romstar => "Romstar",
            Licensee::NaxatSoft => "Naxat Soft",
            Licensee::Tradewest => "Tradewest",
            Licensee::OceanSoftware => "Ocean Software",
            Licensee::ElectroBrain => "Electro Brain",
            Licensee::SculpturedSoftware => "Sculptured Software",
            Licensee::TriffixEntertainment => "Triffix Entertainment",
            Licensee::Microprose => "Microprose",
            Licensee::Kemco => "Kemco",
            Licensee::MisawaEntertainment => "Misawa Entertainment",
            Licensee::BulletProofSoftware => "Bullet-Proof Software",
            Licensee::VicTokai => "Vic Tokai",
            Licensee::Ape => "Ape",
            Licensee::IMax => "I'Max",
            Licensee::ChunsoftCo => "Chunsoft Co.",
            Licensee::TsubarayaProductionsCo => "Tsubaraya Productions Co.",
            Licensee::Varie => "Varie",
            Licensee::Arc => "Arc",
            Licensee::NihonBussan => "Nihon Bussan",
            Licensee::Tecmo => "Tecmo",
            Licensee::Imagineer => "Imagineer",
            Licensee::Nova => "Nova",
            Licensee::HoriElectric => "Hori Electric",
            Licensee::Kawada => "Kawada",
            Licensee::Takara => "Takara",
            Licensee::TechnosJapan => "Technos Japan",
            Licensee::ToeiAnimation => "Toei Animation",
            Licensee::Toho => "Toho",
            Licensee::Namco => "Namco",
            Licensee::ASCIICorporation => "ASCII Corporation",
            Licensee::SquareEnix => "Square Enix",
            Licensee::HALLaboratory => "HAL Laboratory",
            Licensee::SNK => "SNK",
            Licensee::PonyCanyon => "Pony Canyon",
            Licensee::CultureBrain => "Culture Brain",
            Licensee::Sunsoft => "Sunsoft",
            Licensee::SonyImagesoft => "Sony Imagesoft",
            Licensee::Sammy => "Sammy",
            Licensee::Squaresoft => "Squaresoft",
            Licensee::DataEast => "Data East",
            Licensee::Tonkinhouse => "Tonkinhouse",
            Licensee::Koei => "Koei",
            Licensee::UFL => "UFL",
            Licensee::Ultra => "Ultra",
            Licensee::Vap => "Vap",
            Licensee::UseCorporation => "Use Corporation",
            Licensee::Meldac => "Meldac",
            Licensee::Sofel => "Sofel",
            Licensee::Quest => "Quest",
            Licensee::SigmaEnterprises => "Sigma Enterprises",
            Licensee::ASKKodanshaCo => "ASK Kodansha Co.",
            Licensee::CopyaSystem => "Copya System",
            Licensee::Tomy => "Tomy",
            Licensee::NCS => "NCS",
            Licensee::Human => "Human",
            Licensee::Altron => "Atron",
            Licensee::TowaChiki => "Towa Chiki",
            Licensee::Yutaka => "Yutaka",
            Licensee::Epoch => "Epoch",
            Licensee::Athena => "Athena",
            Licensee::AsmikACEEntertainment => "Asmik ACE Entertainment",
            Licensee::Natsume => "Natsume",
            Licensee::KingRecords => "King Records",
            Licensee::Epic => "Epic",
            Licensee::IGS => "IGS",
            Licensee::AWave => "A Wave",
            Licensee::ExtremeEntertainment => "Extreme Entertainment",
            Licensee::MTO => "MTO",
            Licensee::Kodansha => "Kodansha",
        }
    }
}

/// The publisher's name.
pub open spec fn licensee_name(l: Licensee) -> &'static str {
    match l {
        Licensee::NoneListed => "None",
        Licensee::Unknown => "Unknown",
        Licensee::Capcom => "Capcom",
        Licensee::ElectronicArts => "EA (Electronic Arts)",
        Licensee::HudsonSoft => "Hudson Soft",
        Licensee::BAI => "B-AI",
        Licensee::KSS => "KSS",
        Licensee::Pow => "Pow",
        Licensee::PCMComplete => "PCM Complete",
        Licensee::SanX => "San-X",
        Licensee::KemcoJapan => "Kemco Japan",
        Licensee::Seta => "seta",
        Licensee::Viacom => "Viacom",
        Licensee::Nintendo => "Nintendo",
        Licensee::Bandai => "Bandai",
        Licensee::OceanAcclaim => "Ocean/Acclaim",
        Licensee::Konami => "Konami",
        Licensee::Taito => "Taito",
        Licensee::Banpresto => "Banpresto",
        Licensee::UbiSoft => "Ubi Soft",
        Licensee::Atlus => "Atlus",
        Licensee::MalibuInteractive => "Mailbu Interactive",
        Licensee::Angel => "Angel",
        Licensee::Irem => "Irem",
        Licensee::Absolute => "Absolute",
        Licensee::AcclaimEntertainment => "Acclaim Entertainment",
        Licensee::Activision => "Activision",
        Licensee::AmericanSammy => "American Sammy",
        Licensee::HiTechEntertainment => "Hi Tech Entertainment",
        Licensee::LJN => "LJN",
        Licensee::Matchbox => "Matchbox",
        Licensee::Mattel => "Mattel",
        Licensee::MiltonBradley => "Milton Bradley",
        Licensee::TitusInteractive => "Titus",
        Licensee::LucasfilmGames => "Lucasfilm Games",
        Licensee::Infogrames => "Infogrames",
        Licensee::Interplay => "Interplay",
        Licensee::Broderbund => "Broderbund",
        Licensee::SalesCurveLimited => "The Sales Curve Limited",
        Licensee::THQ => "THQ",
        Licensee::Accolade => "Accolade",
        Licensee::Lozc => "lozc",
        Licensee::TokumaShotenIntermedia => "Tokuma Shoten Intermedia",
        Licensee::TsukudaOriginal => "Tsukunda Original",
        Licensee::VideoSystem => "Video System",
        Licensee::Yonezawa => "Yonezawa",
        Licensee::Kaneko => "Kaneko",
        Licensee::PackInSoft => "Pack-In-Soft",
        Licensee::BottomUp => "Bottom Up",
        Licensee::KonamiYuGiOh => "Konami (Yu-Gi-Oh!)",
        Licensee::HOTB => "HOT-B",
        Licensee::Jaleco => "Jaleco",
        Licensee::CoconutsJapan => "Coconuts Japan",
        Licensee::EliteSystems => "Elite Systems",
        Licensee::ITCEntertainment => "ITC Entertainment",
        Licensee::Yanoman => "Yanoman",
        Licensee::JapanClary => "Japan Clary",
        Licensee::VirginGamesLtd => "Virgin Games Ltd.",
        Licensee::KotobukiSystems => "Kotobuki Systems",
        Licensee::HectorSoft => "HectorSoft",
        Licensee::Entertainmenti => "Entertainment i",
        Licensee::Gremlin => "Gremlin",
        Licensee::SpectrumHoloby => "Spectrum Holoby",
        Licensee::USGold => "U.S. Gold",
        Licensee::GameTek => "GameTek",
        Licensee::ParkPlace => "Park Place",
        Licensee::Mindscape => "Mindscape",
        Licensee::Romstar => "Romstar",
        Licensee::NaxatSoft => "Naxat Soft",
        Licensee::Tradewest => "Tradewest",
        Licensee::OceanSoftware => "Ocean Software",
        Licensee::ElectroBrain => "Electro Brain",
        Licensee::SculpturedSoftware => "Sculptured Software",
        Licensee::TriffixEntertainment => "Triffix Entertainment",
        Licensee::Microprose => "Microprose",
        Licensee::Kemco => "Kemco",
        Licensee::MisawaEntertainment => "Misawa Entertainment",
        Licensee::BulletProofSoftware => "Bullet-Proof Software",
        Licensee::VicTokai => "Vic Tokai",
        Licensee::Ape => "Ape",
        Licensee::IMax => "I'Max",
        Licensee::ChunsoftCo => "Chunsoft Co.",
        Licensee::TsubarayaProductionsCo => "Tsubaraya Productions Co.",
        Licensee::Varie => "Varie",
        Licensee::Arc => "Arc",
        Licensee::NihonBussan => "Nihon Bussan",
        Licensee::Tecmo => "Tecmo",
        Licensee::Imagineer => "Imagineer",
        Licensee::Nova => "Nova",
        Licensee::HoriElectric => "Hori Electric",
        Licensee::Kawada => "Kawada",
        Licensee::Takara => "Takara",
        Licensee::TechnosJapan => "Technos Japan",
        Licensee::ToeiAnimation => "Toei Animation",
        Licensee::Toho => "Toho",
        Licensee::Namco => "Namco",
        Licensee::ASCIICorporation => "ASCII Corporation",
        Licensee::SquareEnix => "Square Enix",
        Licensee::HALLaboratory => "HAL Laboratory",
        Licensee::SNK => "SNK",
        Licensee::PonyCanyon => "Pony Canyon",
        Licensee::CultureBrain => "Culture Brain",
        Licensee::Sunsoft => "Sunsoft",
        Licensee::SonyImagesoft => "Sony Imagesoft",
        Licensee::Sammy => "Sammy",
        Licensee::Squaresoft => "Squaresoft",
        Licensee::DataEast => "Data East",
        Licensee::Tonkinhouse => "Tonkinhouse",
        Licensee::Koei => "Koei",
        Licensee::UFL => "UFL",
        Licensee::Ultra => "Ultra",
        Licensee::Vap => "Vap",
        Licensee::UseCorporation => "Use Corporation",
        Licensee::Meldac => "Meldac",
        Licensee::Sofel => "Sofel",
        Licensee::Quest => "Quest",
        Licensee::SigmaEnterprises => "Sigma Enterprises",
        Licensee::ASKKodanshaCo => "ASK Kodansha Co.",
        Licensee::CopyaSystem => "Copya System",
        Licensee::Tomy => "Tomy",
        Licensee::NCS => "NCS",
        Licensee::Human => "Human",
        Licensee::Altron => "Atron",
        Licensee::TowaChiki => "Towa Chiki",
        Licensee::Yutaka => "Yutaka",
        Licensee::Epoch => "Epoch",
        Licensee::Athena => "Athena",
        Licensee::AsmikACEEntertainment => "Asmik ACE Entertainment",
        Licensee::Natsume => "Natsume",
        Licensee::KingRecords => "King Records",
        Licensee::Epic => "Epic",
        Licensee::IGS => "IGS",
        Licensee::AWave => "A Wave",
        Licensee::ExtremeEntertainment => "Extreme Entertainment",
        Licensee::MTO => "MTO",
        Licensee::Kodansha => "Kodansha",
    }
}


/// The new-licensee codes (header bytes 0x0144-0x0145) as the published
/// table lists them: the two code characters and the licensee.
pub open spec fn new_licensee_table() -> Seq<(char, char, Licensee)> {
    seq![
        ('0', '0', Licensee::NoneListed),
        ('0', '1', Licensee::Nintendo),
        ('0', '8', Licensee::Capcom),
        ('1', '3', Licensee::ElectronicArts),
        ('1', '8', Licensee::HudsonSoft),
        ('1', '9', Licensee::BAI),
        ('2', '0', Licensee::KSS),
        ('2', '2', Licensee::Pow),
        ('2', '4', Licensee::PCMComplete),
        ('2', '5', Licensee::SanX),
        ('2', '8', Licensee::KemcoJapan),
        ('2', '9', Licensee::Seta),
        ('3', '0', Licensee::Viacom),
        ('3', '1', Licensee::Nintendo),
        ('3', '2', Licensee::Bandai),
        ('3', '3', Licensee::OceanAcclaim),
        ('3', '4', Licensee::Konami),
        ('3', '5', Licensee::HectorSoft),
        ('3', '7', Licensee::Taito),
        ('3', '8', Licensee::HudsonSoft),
        ('3', '9', Licensee::Banpresto),
        ('4', '1', Licensee::UbiSoft),
        ('4', '2', Licensee::Atlus),
        ('4', '4', Licensee::MalibuInteractive),
        ('4', '6', Licensee::Angel),
        ('4', '7', Licensee::BulletProofSoftware),
        ('4', '9', Licensee::Irem),
        ('5', '0', Licensee::Absolute),
        ('5', '1', Licensee::AcclaimEntertainment),
        ('5', '2', Licensee::Activision),
        ('5', '3', Licensee::AmericanSammy),
        ('5', '4', Licensee::Konami),
        ('5', '5', Licensee::HiTechEntertainment),
        ('5', '6', Licensee::LJN),
        ('5', '7', Licensee::Matchbox),
        ('5', '8', Licensee::Mattel),
        ('5', '9', Licensee::MiltonBradley),
        ('6', '0', Licensee::TitusInteractive),
        ('6', '1', Licensee::VirginGamesLtd),
        ('6', '4', Licensee::LucasfilmGames),
        ('6', '7', Licensee::OceanSoftware),
        ('6', '9', Licensee::ElectronicArts),
        ('7', '0', Licensee::Infogrames),
        ('7', '1', Licensee::Interplay),
        ('7', '2', Licensee::Broderbund),
        ('7', '3', Licensee::SculpturedSoftware),
        ('7', '5', Licensee::SalesCurveLimited),
        ('7', '8', Licensee::THQ),
        ('7', '9', Licensee::Accolade),
        ('8', '0', Licensee::MisawaEntertainment),
        ('8', '3', Licensee::Lozc),
        ('8', '6', Licensee::TokumaShotenIntermedia),
        ('8', '7', Licensee::TsukudaOriginal),
        ('9', '1', Licensee::ChunsoftCo),
        ('9', '2', Licensee::VideoSystem),
        ('9', '3', Licensee::OceanAcclaim),
        ('9', '5', Licensee::Varie),
        ('9', '6', Licensee::Yonezawa),
        ('9', '7', Licensee::Kaneko),
        ('9', '9', Licensee::PackInSoft),
        ('9', 'H', Licensee::BottomUp),
        ('A', '4', Licensee::KonamiYuGiOh),
        ('B', 'L', Licensee::MTO),
        ('D', 'K', Licensee::Kodansha)
    ]
}

/// The old-licensee codes (header byte 0x014B) as the published table
/// lists them; 0x33 means the new code is used instead.
pub open spec fn old_licensee_table() -> Seq<(u8, Option<Licensee>)> {
    seq![
        (0x00u8, Some(Licensee::NoneListed)),
        (0x01u8, Some(Licensee::Nintendo)),
        (0x08u8, Some(Licensee::Capcom)),
        (0x09u8, Some(Licensee::HOTB)),
        (0x0Au8, Some(Licensee::Jaleco)),
        (0x0Bu8, Some(Licensee::CoconutsJapan)),
        (0x0Cu8, Some(Licensee::EliteSystems)),
        (0x13u8, Some(Licensee::ElectronicArts)),
        (0x18u8, Some(Licensee::HudsonSoft)),
        (0x19u8, Some(Licensee::ITCEntertainment)),
        (0x1Au8, Some(Licensee::Yanoman)),
        (0x1Du8, Some(Licensee::JapanClary)),
        (0x1Fu8, Some(Licensee::VirginGamesLtd)),
        (0x24u8, Some(Licensee::PCMComplete)),
        (0x25u8, Some(Licensee::SanX)),
        (0x28u8, Some(Licensee::KotobukiSystems)),
        (0x29u8, Some(Licensee::Seta)),
        (0x30u8, Some(Licensee::Infogrames)),
        (0x31u8, Some(Licensee::Nintendo)),
        (0x32u8, Some(Licensee::Bandai)),
        (0x33u8, None),
        (0x34u8, Some(Licensee::Konami)),
        (0x35u8, Some(Licensee::HectorSoft)),
        (0x38u8, Some(Licensee::Capcom)),
        (0x39u8, Some(Licensee::Banpresto)),
        (0x3Cu8, Some(Licensee::Entertainmenti)),
        (0x3Eu8, Some(Licensee::Gremlin)),
        (0x41u8, Some(Licensee::UbiSoft)),
        (0x42u8, Some(Licensee::Atlus)),
        (0x44u8, Some(Licensee::MalibuInteractive)),
        (0x46u8, Some(Licensee::Angel)),
        (0x47u8, Some(Licensee::SpectrumHoloby)),
        (0x49u8, Some(Licensee::Irem)),
        (0x4Au8, Some(Licensee::VirginGamesLtd)),
        (0x4Du8, Some(Licensee::MalibuInteractive)),
        (0x4Fu8, Some(Licensee::USGold)),
        (0x50u8, Some(Licensee::Absolute)),
        (0x51u8, Some(Licensee::AcclaimEntertainment)),
        (0x52u8, Some(Licensee::Activision)),
        (0x53u8, Some(Licensee::AmericanSammy)),
        (0x54u8, Some(Licensee::GameTek)),
        (0x55u8, Some(Licensee::ParkPlace)),
        (0x56u8, Some(Licensee::LJN)),
        (0x57u8, Some(Licensee::Matchbox)),
        (0x59u8, Some(Licensee::MiltonBradley)),
        (0x5Au8, Some(Licensee::Mindscape)),
        (0x5Bu8, Some(Licensee::Romstar)),
        (0x5Cu8, Some(Licensee::NaxatSoft)),
        (0x5Du8, Some(Licensee::Tradewest)),
        (0x60u8, Some(Licensee::TitusInteractive)),
        (0x61u8, Some(Licensee::VirginGamesLtd)),
        (0x67u8, Some(Licensee::OceanSoftware)),
        (0x69u8, Some(Licensee::ElectronicArts)),
        (0x6Eu8, Some(Licensee::EliteSystems)),
        (0x6Fu8, Some(Licensee::ElectroBrain)),
        (0x70u8, Some(Licensee::Infogrames)),
        (0x71u8, Some(Licensee::Interplay)),
        (0x72u8, Some(Licensee::Broderbund)),
        (0x73u8, Some(Licensee::SculpturedSoftware)),
        (0x75u8, Some(Licensee::SalesCurveLimited)),
        (0x78u8, Some(Licensee::THQ)),
        (0x79u8, Some(Licensee::Accolade)),
        (0x7Au8, Some(Licensee::TriffixEntertainment)),
        (0x7Cu8, Some(Licensee::Microprose)),
        (0x7Fu8, Some(Licensee::Kemco)),
        (0x80u8, Some(Licensee::MisawaEntertainment)),
        (0x83u8, Some(Licensee::Lozc)),
        (0x86u8, Some(Licensee::TokumaShotenIntermedia)),
        (0x8Bu8, Some(Licensee::BulletProofSoftware)),
        (0x8Cu8, Some(Licensee::VicTokai)),
        (0x8Eu8, Some(Licensee::Ape)),
        (0x8Fu8, Some(Licensee::IMax)),
        (0x91u8, Some(Licensee::ChunsoftCo)),
        (0x92u8, Some(Licensee::VideoSystem)),
        (0x93u8, Some(Licensee::TsubarayaProductionsCo)),
        (0x95u8, Some(Licensee::Varie)),
        (0x96u8, Some(Licensee::Yonezawa)),
        (0x97u8, Some(Licensee::Kaneko)),
        (0x99u8, Some(Licensee::Arc)),
        (0x9Au8, Some(Licensee::NihonBussan)),
        (0x9Bu8, Some(Licensee::Tecmo)),
        (0x9Cu8, Some(Licensee::Imagineer)),
        (0x9Du8, Some(Licensee::Banpresto)),
        (0x9Fu8, Some(Licensee::Nova)),
        (0xA1u8, Some(Licensee::HoriElectric)),
        (0xA2u8, Some(Licensee::Bandai)),
        (0xA4u8, Some(Licensee::Konami)),
        (0xA6u8, Some(Licensee::Kawada)),
        (0xA7u8, Some(Licensee::Takara)),
        (0xA9u8, Some(Licensee::TechnosJapan)),
        (0xAAu8, Some(Licensee::Broderbund)),
        (0xACu8, Some(Licensee::ToeiAnimation)),
        (0xADu8, Some(Licensee::Toho)),
        (0xAFu8, Some(Licensee::Namco)),
        (0xB0u8, Some(Licensee::AcclaimEntertainment)),
        (0xB1u8, Some(Licensee::ASCIICorporation)),
        (0xB2u8, Some(Licensee::Bandai)),
        (0xB4u8, Some(Licensee::SquareEnix)),
        (0xB6u8, Some(Licensee::HALLaboratory)),
        (0xB7u8, Some(Licensee::SNK)),
        (0xB9u8, Some(Licensee::PonyCanyon)),
        (0xBAu8, Some(Licensee::CultureBrain)),
        (0xBBu8, Some(Licensee::Sammy)),
        (0xBDu8, Some(Licensee::SonyImagesoft)),
        (0xBFu8, Some(Licensee::Sammy)),
        (0xC0u8, Some(Licensee::Taito)),
        (0xC2u8, Some(Licensee::Kemco)),
        (0xC3u8, Some(Licensee::Squaresoft)),
        (0xC4u8, Some(Licensee::TokumaShotenIntermedia)),
        (0xC5u8, Some(Licensee::DataEast)),
        (0xC6u8, Some(Licensee::Tonkinhouse)),
        (0xC8u8, Some(Licensee::Koei)),
        (0xC9u8, Some(Licensee::UFL)),
        (0xCAu8, Some(Licensee::Ultra)),
        (0xCBu8, Some(Licensee::Vap)),
        (0xCCu8, Some(Licensee::UseCorporation)),
        (0xCDu8, Some(Licensee::Meldac)),
        (0xCEu8, Some(Licensee::PonyCanyon)),
        (0xCFu8, Some(Licensee::Angel)),
        (0xD0u8, Some(Licensee::Taito)),
        (0xD1u8, Some(Licensee::Sofel)),
        (0xD2u8, Some(Licensee::Quest)),
        (0xD3u8, Some(Licensee::SigmaEnterprises)),
        (0xD4u8, Some(Licensee::ASKKodanshaCo)),
        (0xD6u8, Some(Licensee::NaxatSoft)),
        (0xD7u8, Some(Licensee::CopyaSystem)),
        (0xD9u8, Some(Licensee::Banpresto)),
        (0xDAu8, Some(Licensee::Tomy)),
        (0xDBu8, Some(Licensee::LJN)),
        (0xDDu8, Some(Licensee::NCS)),
        (0xDEu8, Some(Licensee::Human)),
        (0xDFu8, Some(Licensee::Altron)),
        (0xE0u8, Some(Licensee::Jaleco)),
        (0xE1u8, Some(Licensee::TowaChiki)),
        (0xE2u8, Some(Licensee::Yutaka)),
        (0xE3u8, Some(Licensee::Varie)),
        (0xE5u8, Some(Licensee::Epoch)),
        (0xE7u8, Some(Licensee::Athena)),
        (0xE8u8, Some(Licensee::AsmikACEEntertainment)),
        (0xE9u8, Some(Licensee::Natsume)),
        (0xEAu8, Some(Licensee::KingRecords)),
        (0xEBu8, Some(Licensee::Atlus)),
        (0xECu8, Some(Licensee::Epic)),
        (0xEEu8, Some(Licensee::IGS)),
        (0xF0u8, Some(Licensee::AWave)),
        (0xF3u8, Some(Licensee::ExtremeEntertainment)),
        (0xFFu8, Some(Licensee::LJN))
    ]
}

/// Every code of the new-licensee table names its licensee.
pub proof fn lemma_new_licensee_table()
    ensures
        forall|i: int|
            0 <= i < new_licensee_table().len() ==> new_licensee_spec(
                seq![#[trigger] new_licensee_table()[i].0, new_licensee_table()[i].1],
            ) == new_licensee_table()[i].2,
{
    assert forall|i: int| 0 <= i < new_licensee_table().len() implies new_licensee_spec(
        seq![#[trigger] new_licensee_table()[i].0, new_licensee_table()[i].1],
    ) == new_licensee_table()[i].2 by {
        if i == 0 {
        } else if i == 1 {
        } else if i == 2 {
        } else if i == 3 {
        } else if i == 4 {
        } else if i == 5 {
        } else if i == 6 {
        } else if i == 7 {
        } else if i == 8 {
        } else if i == 9 {
        } else if i == 10 {
        } else if i == 11 {
        } else if i == 12 {
        } else if i == 13 {
        } else if i == 14 {
        } else if i == 15 {
        } else if i == 16 {
        } else if i == 17 {
        } else if i == 18 {
        } else if i == 19 {
        } else if i == 20 {
        } else if i == 21 {
        } else if i == 22 {
        } else if i == 23 {
        } else if i == 24 {
        } else if i == 25 {
        } else if i == 26 {
        } else if i == 27 {
        } else if i == 28 {
        } else if i == 29 {
        } else if i == 30 {
        } else if i == 31 {
        } else if i == 32 {
        } else if i == 33 {
        } else if i == 34 {
        } else if i == 35 {
        } else if i == 36 {
        } else if i == 37 {
        } else if i == 38 {
        } else if i == 39 {
        } else if i == 40 {
        } else if i == 41 {
        } else if i == 42 {
        } else if i == 43 {
        } else if i == 44 {
        } else if i == 45 {
        } else if i == 46 {
        } else if i == 47 {
        } else if i == 48 {
        } else if i == 49 {
        } else if i == 50 {
        } else if i == 51 {
        } else if i == 52 {
        } else if i == 53 {
        } else if i == 54 {
        } else if i == 55 {
        } else if i == 56 {
        } else if i == 57 {
        } else if i == 58 {
        } else if i == 59 {
        } else if i == 60 {
        } else if i == 61 {
        } else if i == 62 {
        } else {
        }
    }
}

/// Every code of the old-licensee table names its licensee.
pub proof fn lemma_old_licensee_table()
    ensures
        forall|i: int|
            0 <= i < old_licensee_table().len() ==> old_licensee_spec(#[trigger] old_licensee_table()[i].0)
                == old_licensee_table()[i].1,
{
    assert forall|i: int| 0 <= i < old_licensee_table().len() implies old_licensee_spec(
        #[trigger] old_licensee_table()[i].0,
    ) == old_licensee_table()[i].1 by {
        if i == 0 {
        } else if i == 1 {
        } else if i == 2 {
        } else if i == 3 {
        } else if i == 4 {
        } else if i == 5 {
        } else if i == 6 {
        } else if i == 7 {
        } else if i == 8 {
        } else if i == 9 {
        } else if i == 10 {
        } else if i == 11 {
        } else if i == 12 {
        } else if i == 13 {
        } else if i == 14 {
        } else if i == 15 {
        } else if i == 16 {
        } else if i == 17 {
        } else if i == 18 {
        } else if i == 19 {
        } else if i == 20 {
        } else if i == 21 {
        } else if i == 22 {
        } else if i == 23 {
        } else if i == 24 {
        } else if i == 25 {
        } else if i == 26 {
        } else if i == 27 {
        } else if i == 28 {
        } else if i == 29 {
        } else if i == 30 {
        } else if i == 31 {
        } else if i == 32 {
        } else if i == 33 {
        } else if i == 34 {
        } else if i == 35 {
        } else if i == 36 {
        } else if i == 37 {
        } else if i == 38 {
        } else if i == 39 {
        } else if i == 40 {
        } else if i == 41 {
        } else if i == 42 {
        } else if i == 43 {
        } else if i == 44 {
        } else if i == 45 {
        } else if i == 46 {
        } else if i == 47 {
        } else if i == 48 {
        } else if i == 49 {
        } else if i == 50 {
        } else if i == 51 {
        } else if i == 52 {
        } else if i == 53 {
        } else if i == 54 {
        } else if i == 55 {
        } else if i == 56 {
        } else if i == 57 {
        } else if i == 58 {
        } else if i == 59 {
        } else if i == 60 {
        } else if i == 61 {
        } else if i == 62 {
        } else if i == 63 {
        } else if i == 64 {
        } else if i == 65 {
        } else if i == 66 {
        } else if i == 67 {
        } else if i == 68 {
        } else if i == 69 {
        } else if i == 70 {
        } else if i == 71 {
        } else if i == 72 {
        } else if i == 73 {
        } else if i == 74 {
        } else if i == 75 {
        } else if i == 76 {
        } else if i == 77 {
        } else if i == 78 {
        } else if i == 79 {
        } else if i == 80 {
        } else if i == 81 {
        } else if i == 82 {
        } else if i == 83 {
        } else if i == 84 {
        } else if i == 85 {
        } else if i == 86 {
        } else if i == 87 {
        } else if i == 88 {
        } else if i == 89 {
        } else if i == 90 {
        } else if i == 91 {
        } else if i == 92 {
        } else if i == 93 {
        } else if i == 94 {
        } else if i == 95 {
        } else if i == 96 {
        } else if i == 97 {
        } else if i == 98 {
        } else if i == 99 {
        } else if i == 100 {
        } else if i == 101 {
        } else if i == 102 {
        } else if i == 103 {
        } else if i == 104 {
        } else if i == 105 {
        } else if i == 106 {
        } else if i == 107 {
        } else if i == 108 {
        } else if i == 109 {
        } else if i == 110 {
        } else if i == 111 {
        } else if i == 112 {
        } else if i == 113 {
        } else if i == 114 {
        } else if i == 115 {
        } else if i == 116 {
        } else if i == 117 {
        } else if i == 118 {
        } else if i == 119 {
        } else if i == 120 {
        } else if i == 121 {
        } else if i == 122 {
        } else if i == 123 {
        } else if i == 124 {
        } else if i == 125 {
        } else if i == 126 {
        } else if i == 127 {
        } else if i == 128 {
        } else if i == 129 {
        } else if i == 130 {
        } else if i == 131 {
        } else if i == 132 {
        } else if i == 133 {
        } else if i == 134 {
        } else if i == 135 {
        } else if i == 136 {
        } else if i == 137 {
        } else if i == 138 {
        } else if i == 139 {
        } else if i == 140 {
        } else if i == 141 {
        } else if i == 142 {
        } else if i == 143 {
        } else if i == 144 {
        } else if i == 145 {
        } else {
        }
    }
}

} // verus!
