use vstd::prelude::*;

verus! {

/// A 4-byte atom type tag (FourCC), held as the big-endian value of its four
/// bytes so that two tags are equal exactly when their bytes are. Unknown tags
/// are legal: a header is read verbatim, never validated against the registry.
#[derive(Debug, Clone, Copy, PartialEq, Eq, Structural)]
pub struct Header(pub u32);

/// The `ftyp` tag.
pub const FTYP: u32 = 0x66747970;

/// The `moov` tag.
pub const MOOV: u32 = 0x6D6F6F76;

/// The `mdat` tag.
pub const MDAT: u32 = 0x6D646174;

/// The `tkhd` tag.
pub const TKHD: u32 = 0x746B6864;

/// The `mvhd` tag.
pub const MVHD: u32 = 0x6D766864;

/// The `stco` tag.
pub const STCO: u32 = 0x7374636F;

/// The `co64` tag.
pub const CO64: u32 = 0x636F3634;

/// The `clip` tag.
pub const CLIP: u32 = 0x636C6970;

/// The `trak` tag.
pub const TRAK: u32 = 0x7472616B;

/// The `udta` tag.
pub const UDTA: u32 = 0x75647461;

/// The `ctab` tag.
pub const CTAB: u32 = 0x63746162;

/// The `cmov` tag.
pub const CMOV: u32 = 0x636D6F76;

/// The `rmra` tag.
pub const RMRA: u32 = 0x726D7261;

/// The `prfl` tag.
pub const PRFL: u32 = 0x7072666C;

/// The `tapt` tag.
pub const TAPT: u32 = 0x74617074;

/// The `matt` tag.
pub const MATT: u32 = 0x6D617474;

/// The `edts` tag.
pub const EDTS: u32 = 0x65647473;

/// The `tref` tag.
pub const TREF: u32 = 0x74726566;

/// The `txas` tag.
pub const TXAS: u32 = 0x74786173;

/// The `load` tag.
pub const LOAD: u32 = 0x6C6F6164;

/// The `imap` tag.
pub const IMAP: u32 = 0x696D6170;

/// The `mdia` tag.
pub const MDIA: u32 = 0x6D646961;

/// The `mdhd` tag.
pub const MDHD: u32 = 0x6D646864;

/// The `elng` tag.
pub const ELNG: u32 = 0x656C6E67;

/// The `hdlr` tag.
pub const HDLR: u32 = 0x68646C72;

/// The `minf` tag.
pub const MINF: u32 = 0x6D696E66;

/// The `vmhd` tag.
pub const VMHD: u32 = 0x766D6864;

/// The `smhd` tag.
pub const SMHD: u32 = 0x736D6864;

/// The `gmhd` tag.
pub const GMHD: u32 = 0x676D6864;

/// The `dinf` tag.
pub const DINF: u32 = 0x64696E66;

/// The `stbl` tag.
pub const STBL: u32 = 0x7374626C;

/// The `gmin` tag.
pub const GMIN: u32 = 0x676D696E;

/// The `text` tag.
pub const TEXT: u32 = 0x74657874;

/// The `dref` tag.
pub const DREF: u32 = 0x64726566;

/// The `stsd` tag.
pub const STSD: u32 = 0x73747364;

/// The `stts` tag.
pub const STTS: u32 = 0x73747473;

/// The `ctts` tag.
pub const CTTS: u32 = 0x63747473;

/// The `cslg` tag.
pub const CSLG: u32 = 0x63736C67;

/// The `stss` tag.
pub const STSS: u32 = 0x73747373;

/// The `stps` tag.
pub const STPS: u32 = 0x73747073;

/// The `stsc` tag.
pub const STSC: u32 = 0x73747363;

/// The `stsz` tag.
pub const STSZ: u32 = 0x7374737A;

/// The `stsh` tag.
pub const STSH: u32 = 0x73747368;

/// The `sgpd` tag.
pub const SGPD: u32 = 0x73677064;

/// The `sbgp` tag.
pub const SBGP: u32 = 0x73626770;

/// The `sdtp` tag.
pub const SDTP: u32 = 0x73647470;

/// The `rmda` tag.
pub const RMDA: u32 = 0x726D6461;

/// The `rdrf` tag.
pub const RDRF: u32 = 0x72647266;

/// The `rmdr` tag.
pub const RMDR: u32 = 0x726D6472;

/// The `rmcs` tag.
pub const RMCS: u32 = 0x726D6373;

/// The `rmvc` tag.
pub const RMVC: u32 = 0x726D7663;

/// The `rmcd` tag.
pub const RMCD: u32 = 0x726D6364;

/// The `rmqu` tag.
pub const RMQU: u32 = 0x726D7175;

/// The `crgn` tag.
pub const CRGN: u32 = 0x6372676E;

/// The `kmat` tag.
pub const KMAT: u32 = 0x6B6D6174;

/// The `elst` tag.
pub const ELST: u32 = 0x656C7374;

/// The `clef` tag.
pub const CLEF: u32 = 0x636C6566;

/// The `prof` tag.
pub const PROF: u32 = 0x70726F66;

/// The `enof` tag.
pub const ENOF: u32 = 0x656E6F66;

/// The `ssrc` tag.
pub const SSRC: u32 = 0x73737263;

/// The `obid` tag.
pub const OBID: u32 = 0x6F626964;

/// The `alis` tag.
pub const ALIS: u32 = 0x616C6973;

/// The `rsrc` tag.
pub const RSRC: u32 = 0x72737263;

/// The `url ` tag.
pub const URL: u32 = 0x75726C20;

/// The `gama` tag.
pub const GAMA: u32 = 0x67616D61;

/// The `fiel` tag.
pub const FIEL: u32 = 0x6669656C;

/// The `mjqt` tag.
pub const MJQT: u32 = 0x6D6A7174;

/// The `mjht` tag.
pub const MJHT: u32 = 0x6D6A6874;

/// The `esds` tag.
pub const ESDS: u32 = 0x65736473;

/// The `avcC` tag.
pub const AVCC: u32 = 0x61766343;

/// The `pasp` tag.
pub const PASP: u32 = 0x70617370;

/// The `colr` tag.
pub const COLR: u32 = 0x636F6C72;

/// The `clap` tag.
pub const CLAP: u32 = 0x636C6170;

/// The `vide` tag.
pub const VIDE: u32 = 0x76696465;

/// The `soun` tag.
pub const SOUN: u32 = 0x736F756E;

} // verus!
