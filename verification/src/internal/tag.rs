//! Tags: identifiers for data held in RPM headers.
//!
//! Each tag is an engine-defined integer constant; the enums here carry the
//! names and `code` gives the fixed numeric mapping.

use vstd::prelude::*;

verus! {

/// Identifiers for data in RPM headers (`rpmTag_e` in the native engine).
#[allow(non_camel_case_types)]
#[derive(Copy, Clone, Debug, Eq, PartialEq, Structural, Hash)]
pub enum Tag {
    NOT_FOUND,
    HEADERIMAGE,
    HEADERSIGNATURES,
    HEADERIMMUTABLE,
    HEADERREGIONS,
    HEADERI18NTABLE,
    SIG_BASE,
    SIGSIZE,
    SIGPGP,
    SIGMD5,
    SIGGPG,
    PUBKEYS,
    DSAHEADER,
    RSAHEADER,
    SHA1HEADER,
    LONGSIGSIZE,
    LONGARCHIVESIZE,
    NAME,
    VERSION,
    RELEASE,
    EPOCH,
    SUMMARY,
    DESCRIPTION,
    BUILDTIME,
    BUILDHOST,
    INSTALLTIME,
    SIZE,
    DISTRIBUTION,
    VENDOR,
    GIF,
    XPM,
    LICENSE,
    PACKAGER,
    GROUP,
    CHANGELOG,
    SOURCE,
    PATCH,
    URL,
    OS,
    ARCH,
    PREIN,
    POSTIN,
    PREUN,
    POSTUN,
    FILESIZES,
    FILESTATES,
    FILEMODES,
    FILERDEVS,
    FILEMTIMES,
    FILEDIGESTS,
    FILELINKTOS,
    FILEFLAGS,
    ROOT,
    FILEUSERNAME,
    FILEGROUPNAME,
    ICON,
    SOURCERPM,
    FILEVERIFYFLAGS,
    ARCHIVESIZE,
    PROVIDENAME,
    REQUIREFLAGS,
    REQUIRENAME,
    REQUIREVERSION,
    NOSOURCE,
    NOPATCH,
    CONFLICTFLAGS,
    CONFLICTNAME,
    CONFLICTVERSION,
    DEFAULTPREFIX,
    BUILDROOT,
    INSTALLPREFIX,
    EXCLUDEARCH,
    EXCLUDEOS,
    EXCLUSIVEARCH,
    EXCLUSIVEOS,
    AUTOREQPROV,
    RPMVERSION,
    TRIGGERSCRIPTS,
    TRIGGERNAME,
    TRIGGERVERSION,
    TRIGGERFLAGS,
    TRIGGERINDEX,
    VERIFYSCRIPT,
    CHANGELOGTIME,
    CHANGELOGNAME,
    CHANGELOGTEXT,
    PREREQ,
    PREINPROG,
    POSTINPROG,
    PREUNPROG,
    POSTUNPROG,
    BUILDARCHS,
    OBSOLETENAME,
    VERIFYSCRIPTPROG,
    TRIGGERSCRIPTPROG,
    DOCDIR,
    COOKIE,
    FILEDEVICES,
    FILEINODES,
    FILELANGS,
    PREFIXES,
    INSTPREFIXES,
    TRIGGERIN,
    TRIGGERUN,
    TRIGGERPOSTUN,
    AUTOREQ,
    AUTOPROV,
    CAPABILITY,
    SOURCEPACKAGE,
    BUILDPREREQ,
    BUILDREQUIRES,
    BUILDCONFLICTS,
    PROVIDEFLAGS,
    PROVIDEVERSION,
    DIRINDEXES,
    BASENAMES,
    DIRNAMES,
    ORIGDIRINDEXES,
    ORIGBASENAMES,
    ORIGDIRNAMES,
    OPTFLAGS,
    DISTURL,
    PAYLOADFORMAT,
    PAYLOADCOMPRESSOR,
    PAYLOADFLAGS,
    INSTALLCOLOR,
    INSTALLTID,
    REMOVETID,
    PLATFORM,
    PATCHESNAME,
    PATCHESFLAGS,
    PATCHESVERSION,
    FILECOLORS,
    FILECLASS,
    CLASSDICT,
    FILEDEPENDSX,
    FILEDEPENDSN,
    DEPENDSDICT,
    SOURCEPKGID,
    FSCONTEXTS,
    RECONTEXTS,
    POLICIES,
    PRETRANS,
    POSTTRANS,
    PRETRANSPROG,
    POSTTRANSPROG,
    DISTTAG,
    PRIORITY,
    CVSID,
    BLINKPKGID,
    BLINKHDRID,
    BLINKNEVRA,
    FLINKPKGID,
    FLINKHDRID,
    FLINKNEVRA,
    PACKAGEORIGIN,
    TRIGGERPREIN,
    BUILDSUGGESTS,
    BUILDENHANCES,
    SCRIPTSTATES,
    SCRIPTMETRICS,
    BUILDCPUCLOCK,
    FILEDIGESTALGOS,
    VARIANTS,
    XMAJOR,
    XMINOR,
    REPOTAG,
    KEYWORDS,
    BUILDPLATFORMS,
    PACKAGECOLOR,
    PACKAGEPREFCOLOR,
    XATTRSDICT,
    FILEXATTRSX,
    DEPATTRSDICT,
    CONFLICTATTRSX,
    OBSOLETEATTRSX,
    PROVIDEATTRSX,
    REQUIREATTRSX,
    BUILDPROVIDES,
    BUILDOBSOLETES,
    DBINSTANCE,
    NVRA,
    FILENAMES,
    FILEPROVIDE,
    FILEREQUIRE,
    FSNAMES,
    FSSIZES,
    TRIGGERCONDS,
    TRIGGERTYPE,
    ORIGFILENAMES,
    LONGFILESIZES,
    LONGSIZE,
    FILECAPS,
    FILEDIGESTALGO,
    BUGURL,
    EVR,
    NVR,
    NEVR,
    NEVRA,
    HEADERCOLOR,
    VERBOSE,
    EPOCHNUM,
    PREINFLAGS,
    POSTINFLAGS,
    PREUNFLAGS,
    POSTUNFLAGS,
    PRETRANSFLAGS,
    POSTTRANSFLAGS,
    VERIFYSCRIPTFLAGS,
    TRIGGERSCRIPTFLAGS,
    COLLECTIONS,
    POLICYNAMES,
    POLICYTYPES,
    POLICYTYPESINDEXES,
    POLICYFLAGS,
    VCS,
    ORDERNAME,
    ORDERVERSION,
    ORDERFLAGS,
    MSSFMANIFEST,
    MSSFDOMAIN,
    INSTFILENAMES,
    REQUIRENEVRS,
    PROVIDENEVRS,
    OBSOLETENEVRS,
    CONFLICTNEVRS,
    FILENLINKS,
}

impl Tag {
    /// The numeric code of this tag, as the native engine defines it.
    pub open spec fn spec_code(self) -> i32 {
        match self {
            Tag::NOT_FOUND => -1i32,
            Tag::HEADERIMAGE => 61i32,
            Tag::HEADERSIGNATURES => 62i32,
            Tag::HEADERIMMUTABLE => 63i32,
            Tag::HEADERREGIONS => 64i32,
            Tag::HEADERI18NTABLE => 100i32,
            Tag::SIG_BASE => 256i32,
            Tag::SIGSIZE => 257i32,
            Tag::SIGPGP => 259i32,
            Tag::SIGMD5 => 261i32,
            Tag::SIGGPG => 262i32,
            Tag::PUBKEYS => 266i32,
            Tag::DSAHEADER => 267i32,
            Tag::RSAHEADER => 268i32,
            Tag::SHA1HEADER => 269i32,
            Tag::LONGSIGSIZE => 270i32,
            Tag::LONGARCHIVESIZE => 271i32,
            Tag::NAME => 1000i32,
            Tag::VERSION => 1001i32,
            Tag::RELEASE => 1002i32,
            Tag::EPOCH => 1003i32,
            Tag::SUMMARY => 1004i32,
            Tag::DESCRIPTION => 1005i32,
            Tag::BUILDTIME => 1006i32,
            Tag::BUILDHOST => 1007i32,
            Tag::INSTALLTIME => 1008i32,
            Tag::SIZE => 1009i32,
            Tag::DISTRIBUTION => 1010i32,
            Tag::VENDOR => 1011i32,
            Tag::GIF => 1012i32,
            Tag::XPM => 1013i32,
            Tag::LICENSE => 1014i32,
            Tag::PACKAGER => 1015i32,
            Tag::GROUP => 1016i32,
            Tag::CHANGELOG => 1017i32,
            Tag::SOURCE => 1018i32,
            Tag::PATCH => 1019i32,
            Tag::URL => 1020i32,
            Tag::OS => 1021i32,
            Tag::ARCH => 1022i32,
            Tag::PREIN => 1023i32,
            Tag::POSTIN => 1024i32,
            Tag::PREUN => 1025i32,
            Tag::POSTUN => 1026i32,
            Tag::FILESIZES => 1028i32,
            Tag::FILESTATES => 1029i32,
            Tag::FILEMODES => 1030i32,
            Tag::FILERDEVS => 1033i32,
            Tag::FILEMTIMES => 1034i32,
            Tag::FILEDIGESTS => 1035i32,
            Tag::FILELINKTOS => 1036i32,
            Tag::FILEFLAGS => 1037i32,
            Tag::ROOT => 1038i32,
            Tag::FILEUSERNAME => 1039i32,
            Tag::FILEGROUPNAME => 1040i32,
            Tag::ICON => 1043i32,
            Tag::SOURCERPM => 1044i32,
            Tag::FILEVERIFYFLAGS => 1045i32,
            Tag::ARCHIVESIZE => 1046i32,
            Tag::PROVIDENAME => 1047i32,
            Tag::REQUIREFLAGS => 1048i32,
            Tag::REQUIRENAME => 1049i32,
            Tag::REQUIREVERSION => 1050i32,
            Tag::NOSOURCE => 1051i32,
            Tag::NOPATCH => 1052i32,
            Tag::CONFLICTFLAGS => 1053i32,
            Tag::CONFLICTNAME => 1054i32,
            Tag::CONFLICTVERSION => 1055i32,
            Tag::DEFAULTPREFIX => 1056i32,
            Tag::BUILDROOT => 1057i32,
            Tag::INSTALLPREFIX => 1058i32,
            Tag::EXCLUDEARCH => 1059i32,
            Tag::EXCLUDEOS => 1060i32,
            Tag::EXCLUSIVEARCH => 1061i32,
            Tag::EXCLUSIVEOS => 1062i32,
            Tag::AUTOREQPROV => 1063i32,
            Tag::RPMVERSION => 1064i32,
            Tag::TRIGGERSCRIPTS => 1065i32,
            Tag::TRIGGERNAME => 1066i32,
            Tag::TRIGGERVERSION => 1067i32,
            Tag::TRIGGERFLAGS => 1068i32,
            Tag::TRIGGERINDEX => 1069i32,
            Tag::VERIFYSCRIPT => 1079i32,
            Tag::CHANGELOGTIME => 1080i32,
            Tag::CHANGELOGNAME => 1081i32,
            Tag::CHANGELOGTEXT => 1082i32,
            Tag::PREREQ => 1084i32,
            Tag::PREINPROG => 1085i32,
            Tag::POSTINPROG => 1086i32,
            Tag::PREUNPROG => 1087i32,
            Tag::POSTUNPROG => 1088i32,
            Tag::BUILDARCHS => 1089i32,
            Tag::OBSOLETENAME => 1090i32,
            Tag::VERIFYSCRIPTPROG => 1091i32,
            Tag::TRIGGERSCRIPTPROG => 1092i32,
            Tag::DOCDIR => 1093i32,
            Tag::COOKIE => 1094i32,
            Tag::FILEDEVICES => 1095i32,
            Tag::FILEINODES => 1096i32,
            Tag::FILELANGS => 1097i32,
            Tag::PREFIXES => 1098i32,
            Tag::INSTPREFIXES => 1099i32,
            Tag::TRIGGERIN => 1100i32,
            Tag::TRIGGERUN => 1101i32,
            Tag::TRIGGERPOSTUN => 1102i32,
            Tag::AUTOREQ => 1103i32,
            Tag::AUTOPROV => 1104i32,
            Tag::CAPABILITY => 1105i32,
            Tag::SOURCEPACKAGE => 1106i32,
            Tag::BUILDPREREQ => 1108i32,
            Tag::BUILDREQUIRES => 1109i32,
            Tag::BUILDCONFLICTS => 1110i32,
            Tag::PROVIDEFLAGS => 1112i32,
            Tag::PROVIDEVERSION => 1113i32,
            Tag::DIRINDEXES => 1116i32,
            Tag::BASENAMES => 1117i32,
            Tag::DIRNAMES => 1118i32,
            Tag::ORIGDIRINDEXES => 1119i32,
            Tag::ORIGBASENAMES => 1120i32,
            Tag::ORIGDIRNAMES => 1121i32,
            Tag::OPTFLAGS => 1122i32,
            Tag::DISTURL => 1123i32,
            Tag::PAYLOADFORMAT => 1124i32,
            Tag::PAYLOADCOMPRESSOR => 1125i32,
            Tag::PAYLOADFLAGS => 1126i32,
            Tag::INSTALLCOLOR => 1127i32,
            Tag::INSTALLTID => 1128i32,
            Tag::REMOVETID => 1129i32,
            Tag::PLATFORM => 1132i32,
            Tag::PATCHESNAME => 1133i32,
            Tag::PATCHESFLAGS => 1134i32,
            Tag::PATCHESVERSION => 1135i32,
            Tag::FILECOLORS => 1140i32,
            Tag::FILECLASS => 1141i32,
            Tag::CLASSDICT => 1142i32,
            Tag::FILEDEPENDSX => 1143i32,
            Tag::FILEDEPENDSN => 1144i32,
            Tag::DEPENDSDICT => 1145i32,
            Tag::SOURCEPKGID => 1146i32,
            Tag::FSCONTEXTS => 1148i32,
            Tag::RECONTEXTS => 1149i32,
            Tag::POLICIES => 1150i32,
            Tag::PRETRANS => 1151i32,
            Tag::POSTTRANS => 1152i32,
            Tag::PRETRANSPROG => 1153i32,
            Tag::POSTTRANSPROG => 1154i32,
            Tag::DISTTAG => 1155i32,
            Tag::PRIORITY => 1162i32,
            Tag::CVSID => 1163i32,
            Tag::BLINKPKGID => 1164i32,
            Tag::BLINKHDRID => 1165i32,
            Tag::BLINKNEVRA => 1166i32,
            Tag::FLINKPKGID => 1167i32,
            Tag::FLINKHDRID => 1168i32,
            Tag::FLINKNEVRA => 1169i32,
            Tag::PACKAGEORIGIN => 1170i32,
            Tag::TRIGGERPREIN => 1171i32,
            Tag::BUILDSUGGESTS => 1172i32,
            Tag::BUILDENHANCES => 1173i32,
            Tag::SCRIPTSTATES => 1174i32,
            Tag::SCRIPTMETRICS => 1175i32,
            Tag::BUILDCPUCLOCK => 1176i32,
            Tag::FILEDIGESTALGOS => 1177i32,
            Tag::VARIANTS => 1178i32,
            Tag::XMAJOR => 1179i32,
            Tag::XMINOR => 1180i32,
            Tag::REPOTAG => 1181i32,
            Tag::KEYWORDS => 1182i32,
            Tag::BUILDPLATFORMS => 1183i32,
            Tag::PACKAGECOLOR => 1184i32,
            Tag::PACKAGEPREFCOLOR => 1185i32,
            Tag::XATTRSDICT => 1186i32,
            Tag::FILEXATTRSX => 1187i32,
            Tag::DEPATTRSDICT => 1188i32,
            Tag::CONFLICTATTRSX => 1189i32,
            Tag::OBSOLETEATTRSX => 1190i32,
            Tag::PROVIDEATTRSX => 1191i32,
            Tag::REQUIREATTRSX => 1192i32,
            Tag::BUILDPROVIDES => 1193i32,
            Tag::BUILDOBSOLETES => 1194i32,
            Tag::DBINSTANCE => 1195i32,
            Tag::NVRA => 1196i32,
            Tag::FILENAMES => 5000i32,
            Tag::FILEPROVIDE => 5001i32,
            Tag::FILEREQUIRE => 5002i32,
            Tag::FSNAMES => 5003i32,
            Tag::FSSIZES => 5004i32,
            Tag::TRIGGERCONDS => 5005i32,
            Tag::TRIGGERTYPE => 5006i32,
            Tag::ORIGFILENAMES => 5007i32,
            Tag::LONGFILESIZES => 5008i32,
            Tag::LONGSIZE => 5009i32,
            Tag::FILECAPS => 5010i32,
            Tag::FILEDIGESTALGO => 5011i32,
            Tag::BUGURL => 5012i32,
            Tag::EVR => 5013i32,
            Tag::NVR => 5014i32,
            Tag::NEVR => 5015i32,
            Tag::NEVRA => 5016i32,
            Tag::HEADERCOLOR => 5017i32,
            Tag::VERBOSE => 5018i32,
            Tag::EPOCHNUM => 5019i32,
            Tag::PREINFLAGS => 5020i32,
            Tag::POSTINFLAGS => 5021i32,
            Tag::PREUNFLAGS => 5022i32,
            Tag::POSTUNFLAGS => 5023i32,
            Tag::PRETRANSFLAGS => 5024i32,
            Tag::POSTTRANSFLAGS => 5025i32,
            Tag::VERIFYSCRIPTFLAGS => 5026i32,
            Tag::TRIGGERSCRIPTFLAGS => 5027i32,
            Tag::COLLECTIONS => 5029i32,
            Tag::POLICYNAMES => 5030i32,
            Tag::POLICYTYPES => 5031i32,
            Tag::POLICYTYPESINDEXES => 5032i32,
            Tag::POLICYFLAGS => 5033i32,
            Tag::VCS => 5034i32,
            Tag::ORDERNAME => 5035i32,
            Tag::ORDERVERSION => 5036i32,
            Tag::ORDERFLAGS => 5037i32,
            Tag::MSSFMANIFEST => 5038i32,
            Tag::MSSFDOMAIN => 5039i32,
            Tag::INSTFILENAMES => 5040i32,
            Tag::REQUIRENEVRS => 5041i32,
            Tag::PROVIDENEVRS => 5042i32,
            Tag::OBSOLETENEVRS => 5043i32,
            Tag::CONFLICTNEVRS => 5044i32,
            Tag::FILENLINKS => 5045i32,
        }
    }

    /// The numeric code of this tag, as the native engine defines it.
    pub fn code(self) -> (c: i32)
        ensures
            c == self.spec_code(),
    {
        match self {
            Tag::NOT_FOUND => -1i32,
            Tag::HEADERIMAGE => 61i32,
            Tag::HEADERSIGNATURES => 62i32,
            Tag::HEADERIMMUTABLE => 63i32,
            Tag::HEADERREGIONS => 64i32,
            Tag::HEADERI18NTABLE => 100i32,
            Tag::SIG_BASE => 256i32,
            Tag::SIGSIZE => 257i32,
            Tag::SIGPGP => 259i32,
            Tag::SIGMD5 => 261i32,
            Tag::SIGGPG => 262i32,
            Tag::PUBKEYS => 266i32,
            Tag::DSAHEADER => 267i32,
            Tag::RSAHEADER => 268i32,
            Tag::SHA1HEADER => 269i32,
            Tag::LONGSIGSIZE => 270i32,
            Tag::LONGARCHIVESIZE => 271i32,
            Tag::NAME => 1000i32,
            Tag::VERSION => 1001i32,
            Tag::RELEASE => 1002i32,
            Tag::EPOCH => 1003i32,
            Tag::SUMMARY => 1004i32,
            Tag::DESCRIPTION => 1005i32,
            Tag::BUILDTIME => 1006i32,
            Tag::BUILDHOST => 1007i32,
            Tag::INSTALLTIME => 1008i32,
            Tag::SIZE => 1009i32,
            Tag::DISTRIBUTION => 1010i32,
            Tag::VENDOR => 1011i32,
            Tag::GIF => 1012i32,
            Tag::XPM => 1013i32,
            Tag::LICENSE => 1014i32,
            Tag::PACKAGER => 1015i32,
            Tag::GROUP => 1016i32,
            Tag::CHANGELOG => 1017i32,
            Tag::SOURCE => 1018i32,
            Tag::PATCH => 1019i32,
            Tag::URL => 1020i32,
            Tag::OS => 1021i32,
            Tag::ARCH => 1022i32,
            Tag::PREIN => 1023i32,
            Tag::POSTIN => 1024i32,
            Tag::PREUN => 1025i32,
            Tag::POSTUN => 1026i32,
            Tag::FILESIZES => 1028i32,
            Tag::FILESTATES => 1029i32,
            Tag::FILEMODES => 1030i32,
            Tag::FILERDEVS => 1033i32,
            Tag::FILEMTIMES => 1034i32,
            Tag::FILEDIGESTS => 1035i32,
            Tag::FILELINKTOS => 1036i32,
            Tag::FILEFLAGS => 1037i32,
            Tag::ROOT => 1038i32,
            Tag::FILEUSERNAME => 1039i32,
            Tag::FILEGROUPNAME => 1040i32,
            Tag::ICON => 1043i32,
            Tag::SOURCERPM => 1044i32,
            Tag::FILEVERIFYFLAGS => 1045i32,
            Tag::ARCHIVESIZE => 1046i32,
            Tag::PROVIDENAME => 1047i32,
            Tag::REQUIREFLAGS => 1048i32,
            Tag::REQUIRENAME => 1049i32,
            Tag::REQUIREVERSION => 1050i32,
            Tag::NOSOURCE => 1051i32,
            Tag::NOPATCH => 1052i32,
            Tag::CONFLICTFLAGS => 1053i32,
            Tag::CONFLICTNAME => 1054i32,
            Tag::CONFLICTVERSION => 1055i32,
            Tag::DEFAULTPREFIX => 1056i32,
            Tag::BUILDROOT => 1057i32,
            Tag::INSTALLPREFIX => 1058i32,
            Tag::EXCLUDEARCH => 1059i32,
            Tag::EXCLUDEOS => 1060i32,
            Tag::EXCLUSIVEARCH => 1061i32,
            Tag::EXCLUSIVEOS => 1062i32,
            Tag::AUTOREQPROV => 1063i32,
            Tag::RPMVERSION => 1064i32,
            Tag::TRIGGERSCRIPTS => 1065i32,
            Tag::TRIGGERNAME => 1066i32,
            Tag::TRIGGERVERSION => 1067i32,
            Tag::TRIGGERFLAGS => 1068i32,
            Tag::TRIGGERINDEX => 1069i32,
            Tag::VERIFYSCRIPT => 1079i32,
            Tag::CHANGELOGTIME => 1080i32,
            Tag::CHANGELOGNAME => 1081i32,
            Tag::CHANGELOGTEXT => 1082i32,
            Tag::PREREQ => 1084i32,
            Tag::PREINPROG => 1085i32,
            Tag::POSTINPROG => 1086i32,
            Tag::PREUNPROG => 1087i32,
            Tag::POSTUNPROG => 1088i32,
            Tag::BUILDARCHS => 1089i32,
            Tag::OBSOLETENAME => 1090i32,
            Tag::VERIFYSCRIPTPROG => 1091i32,
            Tag::TRIGGERSCRIPTPROG => 1092i32,
            Tag::DOCDIR => 1093i32,
            Tag::COOKIE => 1094i32,
            Tag::FILEDEVICES => 1095i32,
            Tag::FILEINODES => 1096i32,
            Tag::FILELANGS => 1097i32,
            Tag::PREFIXES => 1098i32,
            Tag::INSTPREFIXES => 1099i32,
            Tag::TRIGGERIN => 1100i32,
            Tag::TRIGGERUN => 1101i32,
            Tag::TRIGGERPOSTUN => 1102i32,
            Tag::AUTOREQ => 1103i32,
            Tag::AUTOPROV => 1104i32,
            Tag::CAPABILITY => 1105i32,
            Tag::SOURCEPACKAGE => 1106i32,
            Tag::BUILDPREREQ => 1108i32,
            Tag::BUILDREQUIRES => 1109i32,
            Tag::BUILDCONFLICTS => 1110i32,
            Tag::PROVIDEFLAGS => 1112i32,
            Tag::PROVIDEVERSION => 1113i32,
            Tag::DIRINDEXES => 1116i32,
            Tag::BASENAMES => 1117i32,
            Tag::DIRNAMES => 1118i32,
            Tag::ORIGDIRINDEXES => 1119i32,
            Tag::ORIGBASENAMES => 1120i32,
            Tag::ORIGDIRNAMES => 1121i32,
            Tag::OPTFLAGS => 1122i32,
            Tag::DISTURL => 1123i32,
            Tag::PAYLOADFORMAT => 1124i32,
            Tag::PAYLOADCOMPRESSOR => 1125i32,
            Tag::PAYLOADFLAGS => 1126i32,
            Tag::INSTALLCOLOR => 1127i32,
            Tag::INSTALLTID => 1128i32,
            Tag::REMOVETID => 1129i32,
            Tag::PLATFORM => 1132i32,
            Tag::PATCHESNAME => 1133i32,
            Tag::PATCHESFLAGS => 1134i32,
            Tag::PATCHESVERSION => 1135i32,
            Tag::FILECOLORS => 1140i32,
            Tag::FILECLASS => 1141i32,
            Tag::CLASSDICT => 1142i32,
            Tag::FILEDEPENDSX => 1143i32,
            Tag::FILEDEPENDSN => 1144i32,
            Tag::DEPENDSDICT => 1145i32,
            Tag::SOURCEPKGID => 1146i32,
            Tag::FSCONTEXTS => 1148i32,
            Tag::RECONTEXTS => 1149i32,
            Tag::POLICIES => 1150i32,
            Tag::PRETRANS => 1151i32,
            Tag::POSTTRANS => 1152i32,
            Tag::PRETRANSPROG => 1153i32,
            Tag::POSTTRANSPROG => 1154i32,
            Tag::DISTTAG => 1155i32,
            Tag::PRIORITY => 1162i32,
            Tag::CVSID => 1163i32,
            Tag::BLINKPKGID => 1164i32,
            Tag::BLINKHDRID => 1165i32,
            Tag::BLINKNEVRA => 1166i32,
            Tag::FLINKPKGID => 1167i32,
            Tag::FLINKHDRID => 1168i32,
            Tag::FLINKNEVRA => 1169i32,
            Tag::PACKAGEORIGIN => 1170i32,
            Tag::TRIGGERPREIN => 1171i32,
            Tag::BUILDSUGGESTS => 1172i32,
            Tag::BUILDENHANCES => 1173i32,
            Tag::SCRIPTSTATES => 1174i32,
            Tag::SCRIPTMETRICS => 1175i32,
            Tag::BUILDCPUCLOCK => 1176i32,
            Tag::FILEDIGESTALGOS => 1177i32,
            Tag::VARIANTS => 1178i32,
            Tag::XMAJOR => 1179i32,
            Tag::XMINOR => 1180i32,
            Tag::REPOTAG => 1181i32,
            Tag::KEYWORDS => 1182i32,
            Tag::BUILDPLATFORMS => 1183i32,
            Tag::PACKAGECOLOR => 1184i32,
            Tag::PACKAGEPREFCOLOR => 1185i32,
            Tag::XATTRSDICT => 1186i32,
            Tag::FILEXATTRSX => 1187i32,
            Tag::DEPATTRSDICT => 1188i32,
            Tag::CONFLICTATTRSX => 1189i32,
            Tag::OBSOLETEATTRSX => 1190i32,
            Tag::PROVIDEATTRSX => 1191i32,
            Tag::REQUIREATTRSX => 1192i32,
            Tag::BUILDPROVIDES => 1193i32,
            Tag::BUILDOBSOLETES => 1194i32,
            Tag::DBINSTANCE => 1195i32,
            Tag::NVRA => 1196i32,
            Tag::FILENAMES => 5000i32,
            Tag::FILEPROVIDE => 5001i32,
            Tag::FILEREQUIRE => 5002i32,
            Tag::FSNAMES => 5003i32,
            Tag::FSSIZES => 5004i32,
            Tag::TRIGGERCONDS => 5005i32,
            Tag::TRIGGERTYPE => 5006i32,
            Tag::ORIGFILENAMES => 5007i32,
            Tag::LONGFILESIZES => 5008i32,
            Tag::LONGSIZE => 5009i32,
            Tag::FILECAPS => 5010i32,
            Tag::FILEDIGESTALGO => 5011i32,
            Tag::BUGURL => 5012i32,
            Tag::EVR => 5013i32,
            Tag::NVR => 5014i32,
            Tag::NEVR => 5015i32,
            Tag::NEVRA => 5016i32,
            Tag::HEADERCOLOR => 5017i32,
            Tag::VERBOSE => 5018i32,
            Tag::EPOCHNUM => 5019i32,
            Tag::PREINFLAGS => 5020i32,
            Tag::POSTINFLAGS => 5021i32,
            Tag::PREUNFLAGS => 5022i32,
            Tag::POSTUNFLAGS => 5023i32,
            Tag::PRETRANSFLAGS => 5024i32,
            Tag::POSTTRANSFLAGS => 5025i32,
            Tag::VERIFYSCRIPTFLAGS => 5026i32,
            Tag::TRIGGERSCRIPTFLAGS => 5027i32,
            Tag::COLLECTIONS => 5029i32,
            Tag::POLICYNAMES => 5030i32,
            Tag::POLICYTYPES => 5031i32,
            Tag::POLICYTYPESINDEXES => 5032i32,
            Tag::POLICYFLAGS => 5033i32,
            Tag::VCS => 5034i32,
            Tag::ORDERNAME => 5035i32,
            Tag::ORDERVERSION => 5036i32,
            Tag::ORDERFLAGS => 5037i32,
            Tag::MSSFMANIFEST => 5038i32,
            Tag::MSSFDOMAIN => 5039i32,
            Tag::INSTFILENAMES => 5040i32,
            Tag::REQUIRENEVRS => 5041i32,
            Tag::PROVIDENEVRS => 5042i32,
            Tag::OBSOLETENEVRS => 5043i32,
            Tag::CONFLICTNEVRS => 5044i32,
            Tag::FILENLINKS => 5045i32,
        }
    }
}

/// RPM database index tags (`rpmDbiTag_e` in the native engine).
///
/// Most of them share the code of the header tag they index.
#[allow(non_camel_case_types)]
#[derive(Copy, Clone, Debug, Eq, PartialEq, Structural, Hash)]
pub enum DBIndexTag {
    PACKAGES,
    LABEL,
    NAME,
    BASENAMES,
    GROUP,
    REQUIRENAME,
    PROVIDENAME,
    CONFLICTNAME,
    OBSOLETENAME,
    TRIGGERNAME,
    DIRNAMES,
    INSTALLTID,
    SIGMD5,
    SHA1HEADER,
    INSTFILENAMES,
}

impl DBIndexTag {
    /// The numeric code of this index, as the native engine defines it.
    pub open spec fn spec_code(self) -> i32 {
        match self {
            DBIndexTag::PACKAGES => 0i32,
            DBIndexTag::LABEL => 2i32,
            DBIndexTag::NAME => 1000i32,
            DBIndexTag::BASENAMES => 1117i32,
            DBIndexTag::GROUP => 1016i32,
            DBIndexTag::REQUIRENAME => 1049i32,
            DBIndexTag::PROVIDENAME => 1047i32,
            DBIndexTag::CONFLICTNAME => 1054i32,
            DBIndexTag::OBSOLETENAME => 1090i32,
            DBIndexTag::TRIGGERNAME => 1066i32,
            DBIndexTag::DIRNAMES => 1118i32,
            DBIndexTag::INSTALLTID => 1128i32,
            DBIndexTag::SIGMD5 => 261i32,
            DBIndexTag::SHA1HEADER => 269i32,
            DBIndexTag::INSTFILENAMES => 5040i32,
        }
    }

    /// The numeric code of this index, as the native engine defines it.
    pub fn code(self) -> (c: i32)
        ensures
            c == self.spec_code(),
    {
        match self {
            DBIndexTag::PACKAGES => 0i32,
            DBIndexTag::LABEL => 2i32,
            DBIndexTag::NAME => 1000i32,
            DBIndexTag::BASENAMES => 1117i32,
            DBIndexTag::GROUP => 1016i32,
            DBIndexTag::REQUIRENAME => 1049i32,
            DBIndexTag::PROVIDENAME => 1047i32,
            DBIndexTag::CONFLICTNAME => 1054i32,
            DBIndexTag::OBSOLETENAME => 1090i32,
            DBIndexTag::TRIGGERNAME => 1066i32,
            DBIndexTag::DIRNAMES => 1118i32,
            DBIndexTag::INSTALLTID => 1128i32,
            DBIndexTag::SIGMD5 => 261i32,
            DBIndexTag::SHA1HEADER => 269i32,
            DBIndexTag::INSTFILENAMES => 5040i32,
        }
    }
}

/// RPM package signature tags (`rpmSigTag_e` in the native engine).
#[allow(non_camel_case_types)]
#[derive(Copy, Clone, Debug, Eq, PartialEq, Structural, Hash)]
pub enum SignatureTag {
    /// Header + payload size (32-bit) in bytes.
    SIZE,
    /// Broken MD5 (take 1, deprecated/legacy).
    LEMD5_1,
    /// Broken MD5 (take 2, deprecated/legacy).
    LEMD5_2,
    /// PGP 2.6.3 signature.
    PGP,
    /// MD5 signature.
    MD5,
    /// GnuPG signature.
    GPG,
    /// PGP5 signature (deprecated/legacy).
    PGP5,
    /// Uncompressed payload size in bytes.
    PAYLOADSIZE,
    /// Broken SHA1 (take 1).
    BADSHA1_1,
    /// Broken SHA1 (take 2).
    BADSHA1_2,
    /// SHA1 header digest.
    SHA1,
    /// DSA header signature.
    DSA,
    /// RSA header signature.
    RSA,
    /// Header + payload size (64-bit) in bytes.
    LONGSIZE,
    /// Uncompressed payload size in bytes.
    LONGARCHIVESIZE,
}

impl SignatureTag {
    /// The numeric code of this signature tag, as the native engine defines it.
    pub open spec fn spec_code(self) -> i32 {
        match self {
            SignatureTag::SIZE => 1000i32,
            SignatureTag::LEMD5_1 => 1001i32,
            SignatureTag::LEMD5_2 => 1003i32,
            SignatureTag::PGP => 1002i32,
            SignatureTag::MD5 => 1004i32,
            SignatureTag::GPG => 1005i32,
            SignatureTag::PGP5 => 1006i32,
            SignatureTag::PAYLOADSIZE => 1007i32,
            SignatureTag::BADSHA1_1 => 264i32,
            SignatureTag::BADSHA1_2 => 265i32,
            SignatureTag::SHA1 => 269i32,
            SignatureTag::DSA => 267i32,
            SignatureTag::RSA => 268i32,
            SignatureTag::LONGSIZE => 270i32,
            SignatureTag::LONGARCHIVESIZE => 271i32,
        }
    }

    /// The numeric code of this signature tag, as the native engine defines it.
    pub fn code(self) -> (c: i32)
        ensures
            c == self.spec_code(),
    {
        match self {
            SignatureTag::SIZE => 1000i32,
            SignatureTag::LEMD5_1 => 1001i32,
            SignatureTag::LEMD5_2 => 1003i32,
            SignatureTag::PGP => 1002i32,
            SignatureTag::MD5 => 1004i32,
            SignatureTag::GPG => 1005i32,
            SignatureTag::PGP5 => 1006i32,
            SignatureTag::PAYLOADSIZE => 1007i32,
            SignatureTag::BADSHA1_1 => 264i32,
            SignatureTag::BADSHA1_2 => 265i32,
            SignatureTag::SHA1 => 269i32,
            SignatureTag::DSA => 267i32,
            SignatureTag::RSA => 268i32,
            SignatureTag::LONGSIZE => 270i32,
            SignatureTag::LONGARCHIVESIZE => 271i32,
        }
    }
}

/// Types of data in tags from headers (`rpmTagType_e` in the native engine).
#[allow(non_camel_case_types)]
#[derive(Copy, Clone, Debug, Eq, PartialEq, Structural, Hash)]
pub enum TagType {
    NULL,
    CHAR,
    INT8,
    INT16,
    INT32,
    INT64,
    STRING,
    BIN,
    STRING_ARRAY,
    I18NSTRING,
}

impl TagType {
    /// The numeric type code, as the native engine defines it.
    pub open spec fn spec_code(self) -> u32 {
        match self {
            TagType::NULL => 0u32,
            TagType::CHAR => 1u32,
            TagType::INT8 => 2u32,
            TagType::INT16 => 3u32,
            TagType::INT32 => 4u32,
            TagType::INT64 => 5u32,
            TagType::STRING => 6u32,
            TagType::BIN => 7u32,
            TagType::STRING_ARRAY => 8u32,
            TagType::I18NSTRING => 9u32,
        }
    }

    /// The numeric type code, as the native engine defines it.
    pub fn code(self) -> (c: u32)
        ensures
            c == self.spec_code(),
    {
        match self {
            TagType::NULL => 0u32,
            TagType::CHAR => 1u32,
            TagType::INT8 => 2u32,
            TagType::INT16 => 3u32,
            TagType::INT32 => 4u32,
            TagType::INT64 => 5u32,
            TagType::STRING => 6u32,
            TagType::BIN => 7u32,
            TagType::STRING_ARRAY => 8u32,
            TagType::I18NSTRING => 9u32,
        }
    }

    /// The type a numeric code denotes, or `None` for an unrecognized code.
    pub fn from_code(c: u32) -> (r: Option<TagType>)
        ensures
            match r {
                Some(t) => t.spec_code() == c,
                None => forall|t: TagType| t.spec_code() != c,
            },
    {
        match c {
            0u32 => Some(TagType::NULL),
            1u32 => Some(TagType::CHAR),
            2u32 => Some(TagType::INT8),
            3u32 => Some(TagType::INT16),
            4u32 => Some(TagType::INT32),
            5u32 => Some(TagType::INT64),
            6u32 => Some(TagType::STRING),
            7u32 => Some(TagType::BIN),
            8u32 => Some(TagType::STRING_ARRAY),
            9u32 => Some(TagType::I18NSTRING),
            _ => None,
        }
    }
}

/// Classes of data in tags from headers (`rpmTagClass_e` in the native engine).
#[allow(non_camel_case_types)]
#[derive(Copy, Clone, Debug, Eq, PartialEq, Structural, Hash)]
pub enum TagClass {
    NULL,
    NUMERIC,
    STRING,
    BINARY,
}

impl TagClass {
    /// The numeric class code, as the native engine defines it.
    pub open spec fn spec_code(self) -> u32 {
        match self {
            TagClass::NULL => 0u32,
            TagClass::NUMERIC => 1u32,
            TagClass::STRING => 2u32,
            TagClass::BINARY => 3u32,
        }
    }

    /// The numeric class code, as the native engine defines it.
    pub fn code(self) -> (c: u32)
        ensures
            c == self.spec_code(),
    {
        match self {
            TagClass::NULL => 0u32,
            TagClass::NUMERIC => 1u32,
            TagClass::STRING => 2u32,
            TagClass::BINARY => 3u32,
        }
    }

    /// The class a type of tag data belongs to.
    pub fn of_type(t: TagType) -> (c: TagClass)
        ensures
            c == t.spec_class(),
    {
        match t {
            TagType::NULL => TagClass::NULL,
            TagType::CHAR => TagClass::NUMERIC,
            TagType::INT8 => TagClass::NUMERIC,
            TagType::INT16 => TagClass::NUMERIC,
            TagType::INT32 => TagClass::NUMERIC,
            TagType::INT64 => TagClass::NUMERIC,
            TagType::STRING => TagClass::STRING,
            TagType::BIN => TagClass::BINARY,
            TagType::STRING_ARRAY => TagClass::STRING,
            TagType::I18NSTRING => TagClass::STRING,
        }
    }
}

impl TagType {
    /// The class of data this type belongs to.
    pub open spec fn spec_class(self) -> TagClass {
        match self {
            TagType::NULL => TagClass::NULL,
            TagType::CHAR => TagClass::NUMERIC,
            TagType::INT8 => TagClass::NUMERIC,
            TagType::INT16 => TagClass::NUMERIC,
            TagType::INT32 => TagClass::NUMERIC,
            TagType::INT64 => TagClass::NUMERIC,
            TagType::STRING => TagClass::STRING,
            TagType::BIN => TagClass::BINARY,
            TagType::STRING_ARRAY => TagClass::STRING,
            TagType::I18NSTRING => TagClass::STRING,
        }
    }
}

} // verus!
