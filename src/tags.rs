//! The registry of known Exif tags: number, name and directory.
use vstd::prelude::*;

verus! {

/// The directory in which a tag is normally found.
#[allow(non_camel_case_types)]
#[derive(Clone, Copy, Debug, PartialEq, Eq, Structural)]
pub enum ExifSection {
    /// Not tied to one directory.
    NONE,
    InteropIFD,
    IFD0,
    ExifIFD,
    SubIFD,
    SubIFD2,
}

/// A known tag: its number, its name and the directory it belongs to.
#[derive(Clone, Copy, Debug)]
pub struct ExifField {
    pub tag: u16,
    pub name: &'static str,
    pub section: ExifSection,
}

impl ExifField {
    pub fn new(tag: u16, name: &'static str, section: ExifSection) -> (r: ExifField)
        ensures
            r.tag == tag && r.name == name && r.section == section,
    {
        ExifField { tag, name, section }
    }
}

pub const INTEROP_INDEX: u16 = 0x0001;
pub const INTEROP_VERSION: u16 = 0x0002;
pub const PROCESSING_SOFTWARE: u16 = 0x000b;
pub const SUBFILE_TYPE: u16 = 0x00fe;
pub const OLD_SUBFILE_TYPE: u16 = 0x00ff;
pub const IMAGE_WIDTH: u16 = 0x0100;
pub const IMAGE_HEIGHT: u16 = 0x0101;
pub const BITS_PER_SAMPLE: u16 = 0x0102;
pub const COMPRESSION: u16 = 0x0103;
pub const PHOTOMETRIC_INTERPRETATION: u16 = 0x0106;
pub const THRESHOLDING: u16 = 0x0107;
pub const CELL_WIDTH: u16 = 0x0108;
pub const CELL_LENGTH: u16 = 0x0109;
pub const FILL_ORDER: u16 = 0x010a;
pub const DOCUMENT_NAME: u16 = 0x010d;
pub const IMAGE_DESCRIPTION: u16 = 0x010e;
pub const MAKE: u16 = 0x010f;
pub const MODEL: u16 = 0x0110;
pub const ORIENTATION: u16 = 0x0112;
pub const SAMPLES_PER_PIXEL: u16 = 0x0115;
pub const ROWS_PER_STRIP: u16 = 0x0116;
pub const MIN_SAMPLE_VALUE: u16 = 0x0118;
pub const MAX_SAMPLE_VALUE: u16 = 0x0119;
pub const XRESOLUTION: u16 = 0x011a;
pub const YRESOLUTION: u16 = 0x011b;
pub const PLANAR_CONFIGURATION: u16 = 0x011c;
pub const PAGE_NAME: u16 = 0x011d;
pub const XPOSITION: u16 = 0x011e;
pub const YPOSITION: u16 = 0x011f;
pub const FREE_OFFSETS: u16 = 0x0120;
pub const FREE_BYTE_COUNTS: u16 = 0x0121;
pub const GRAY_RESPONSE_UNIT: u16 = 0x0122;
pub const GRAY_RESPONSE_CURVE: u16 = 0x0123;
pub const T4OPTIONS: u16 = 0x0124;
pub const T6OPTIONS: u16 = 0x0125;
pub const RESOLUTION_UNIT: u16 = 0x0128;
pub const PAGE_NUMBER: u16 = 0x0129;
pub const COLOR_RESPONSE_UNIT: u16 = 0x012c;
pub const TRANSFER_FUNCTION: u16 = 0x012d;
pub const SOFTWARE: u16 = 0x0131;
pub const MODIFY_DATE: u16 = 0x0132;
pub const ARTIST: u16 = 0x013b;
pub const HOST_COMPUTER: u16 = 0x013c;
pub const PREDICTOR: u16 = 0x013d;
pub const WHITE_POINT: u16 = 0x013e;
pub const PRIMARY_CHROMATICITIES: u16 = 0x013f;
pub const COLOR_MAP: u16 = 0x0140;
pub const HALFTONE_HINTS: u16 = 0x0141;
pub const TILE_WIDTH: u16 = 0x0142;
pub const TILE_LENGTH: u16 = 0x0143;
pub const TILE_OFFSETS: u16 = 0x0144;
pub const TILE_BYTE_COUNTS: u16 = 0x0145;
pub const BAD_FAX_LINES: u16 = 0x0146;
pub const CLEAN_FAX_DATA: u16 = 0x0147;
pub const CONSECUTIVE_BAD_FAX_LINES: u16 = 0x0148;
pub const INK_SET: u16 = 0x014c;
pub const INK_NAMES: u16 = 0x014d;
pub const NUMBEROF_INKS: u16 = 0x014e;
pub const DOT_RANGE: u16 = 0x0150;
pub const TARGET_PRINTER: u16 = 0x0151;
pub const EXTRA_SAMPLES: u16 = 0x0152;
pub const SAMPLE_FORMAT: u16 = 0x0153;
pub const SMIN_SAMPLE_VALUE: u16 = 0x0154;
pub const SMAX_SAMPLE_VALUE: u16 = 0x0155;
pub const TRANSFER_RANGE: u16 = 0x0156;
pub const CLIP_PATH: u16 = 0x0157;
pub const XCLIP_PATH_UNITS: u16 = 0x0158;
pub const YCLIP_PATH_UNITS: u16 = 0x0159;
pub const INDEXED: u16 = 0x015a;
pub const JPEGTABLES: u16 = 0x015b;
pub const OPIPROXY: u16 = 0x015f;
pub const GLOBAL_PARAMETERS_IFD: u16 = 0x0190;
pub const PROFILE_TYPE: u16 = 0x0191;
pub const FAX_PROFILE: u16 = 0x0192;
pub const CODING_METHODS: u16 = 0x0193;
pub const VERSION_YEAR: u16 = 0x0194;
pub const MODE_NUMBER: u16 = 0x0195;
pub const DECODE: u16 = 0x01b1;
pub const DEFAULT_IMAGE_COLOR: u16 = 0x01b2;
pub const T82OPTIONS: u16 = 0x01b3;
pub const JPEGPROC: u16 = 0x0200;
pub const JPEGRESTART_INTERVAL: u16 = 0x0203;
pub const JPEGLOSSLESS_PREDICTORS: u16 = 0x0205;
pub const JPEGPOINT_TRANSFORMS: u16 = 0x0206;
pub const JPEGQTABLES: u16 = 0x0207;
pub const JPEGDCTABLES: u16 = 0x0208;
pub const JPEGACTABLES: u16 = 0x0209;
pub const YCB_CR_COEFFICIENTS: u16 = 0x0211;
pub const YCB_CR_SUB_SAMPLING: u16 = 0x0212;
pub const YCB_CR_POSITIONING: u16 = 0x0213;
pub const REFERENCE_BLACK_WHITE: u16 = 0x0214;
pub const STRIP_ROW_COUNTS: u16 = 0x022f;
pub const APPLICATION_NOTES: u16 = 0x02bc;
pub const RENDERING_INTENT: u16 = 0x0303;
pub const USPTOMISCELLANEOUS: u16 = 0x03e7;
pub const RELATED_IMAGE_FILE_FORMAT: u16 = 0x1000;
pub const RELATED_IMAGE_WIDTH: u16 = 0x1001;
pub const RELATED_IMAGE_HEIGHT: u16 = 0x1002;
pub const RATING: u16 = 0x4746;
pub const XP_DIP_XML: u16 = 0x4747;
pub const STITCH_INFO: u16 = 0x4748;
pub const RATING_PERCENT: u16 = 0x4749;
pub const RESOLUTION_XUNIT: u16 = 0x5001;
pub const RESOLUTION_YUNIT: u16 = 0x5002;
pub const RESOLUTION_XLENGTH_UNIT: u16 = 0x5003;
pub const RESOLUTION_YLENGTH_UNIT: u16 = 0x5004;
pub const PRINT_FLAGS: u16 = 0x5005;
pub const PRINT_FLAGS_VERSION: u16 = 0x5006;
pub const PRINT_FLAGS_CROP: u16 = 0x5007;
pub const PRINT_FLAGS_BLEED_WIDTH: u16 = 0x5008;
pub const PRINT_FLAGS_BLEED_WIDTH_SCALE: u16 = 0x5009;
pub const HALFTONE_LPI: u16 = 0x500a;
pub const HALFTONE_LPIUNIT: u16 = 0x500b;
pub const HALFTONE_DEGREE: u16 = 0x500c;
pub const HALFTONE_SHAPE: u16 = 0x500d;
pub const HALFTONE_MISC: u16 = 0x500e;
pub const HALFTONE_SCREEN: u16 = 0x500f;
pub const JPEGQUALITY: u16 = 0x5010;
pub const GRID_SIZE: u16 = 0x5011;
pub const THUMBNAIL_FORMAT: u16 = 0x5012;
pub const THUMBNAIL_WIDTH: u16 = 0x5013;
pub const THUMBNAIL_HEIGHT: u16 = 0x5014;
pub const THUMBNAIL_COLOR_DEPTH: u16 = 0x5015;
pub const THUMBNAIL_PLANES: u16 = 0x5016;
pub const THUMBNAIL_RAW_BYTES: u16 = 0x5017;
pub const THUMBNAIL_LENGTH: u16 = 0x5018;
pub const THUMBNAIL_COMPRESSED_SIZE: u16 = 0x5019;
pub const COLOR_TRANSFER_FUNCTION: u16 = 0x501a;
pub const THUMBNAIL_DATA: u16 = 0x501b;
pub const THUMBNAIL_IMAGE_WIDTH: u16 = 0x5020;
pub const THUMBNAIL_IMAGE_HEIGHT: u16 = 0x5021;
pub const THUMBNAIL_BITS_PER_SAMPLE: u16 = 0x5022;
pub const THUMBNAIL_COMPRESSION: u16 = 0x5023;
pub const THUMBNAIL_PHOTOMETRIC_INTERP: u16 = 0x5024;
pub const THUMBNAIL_DESCRIPTION: u16 = 0x5025;
pub const THUMBNAIL_EQUIP_MAKE: u16 = 0x5026;
pub const THUMBNAIL_EQUIP_MODEL: u16 = 0x5027;
pub const THUMBNAIL_STRIP_OFFSETS: u16 = 0x5028;
pub const THUMBNAIL_ORIENTATION: u16 = 0x5029;
pub const THUMBNAIL_SAMPLES_PER_PIXEL: u16 = 0x502a;
pub const THUMBNAIL_ROWS_PER_STRIP: u16 = 0x502b;
pub const THUMBNAIL_STRIP_BYTE_COUNTS: u16 = 0x502c;
pub const THUMBNAIL_RESOLUTION_X: u16 = 0x502d;
pub const THUMBNAIL_RESOLUTION_Y: u16 = 0x502e;
pub const THUMBNAIL_PLANAR_CONFIG: u16 = 0x502f;
pub const THUMBNAIL_RESOLUTION_UNIT: u16 = 0x5030;
pub const THUMBNAIL_TRANSFER_FUNCTION: u16 = 0x5031;
pub const THUMBNAIL_SOFTWARE: u16 = 0x5032;
pub const THUMBNAIL_DATE_TIME: u16 = 0x5033;
pub const THUMBNAIL_ARTIST: u16 = 0x5034;
pub const THUMBNAIL_WHITE_POINT: u16 = 0x5035;
pub const THUMBNAIL_PRIMARY_CHROMATICITIES: u16 = 0x5036;
pub const THUMBNAIL_YCB_CR_COEFFICIENTS: u16 = 0x5037;
pub const THUMBNAIL_YCB_CR_SUBSAMPLING: u16 = 0x5038;
pub const THUMBNAIL_YCB_CR_POSITIONING: u16 = 0x5039;
pub const THUMBNAIL_REF_BLACK_WHITE: u16 = 0x503a;
pub const THUMBNAIL_COPYRIGHT: u16 = 0x503b;
pub const LUMINANCE_TABLE: u16 = 0x5090;
pub const CHROMINANCE_TABLE: u16 = 0x5091;
pub const FRAME_DELAY: u16 = 0x5100;
pub const LOOP_COUNT: u16 = 0x5101;
pub const GLOBAL_PALETTE: u16 = 0x5102;
pub const INDEX_BACKGROUND: u16 = 0x5103;
pub const INDEX_TRANSPARENT: u16 = 0x5104;
pub const PIXEL_UNITS: u16 = 0x5110;
pub const PIXELS_PER_UNIT_X: u16 = 0x5111;
pub const PIXELS_PER_UNIT_Y: u16 = 0x5112;
pub const PALETTE_HISTOGRAM: u16 = 0x5113;
pub const SONY_RAW_FILE_TYPE: u16 = 0x7000;
pub const SONY_TONE_CURVE: u16 = 0x7010;
pub const VIGNETTING_CORRECTION: u16 = 0x7031;
pub const VIGNETTING_CORR_PARAMS: u16 = 0x7032;
pub const CHROMATIC_ABERRATION_CORRECTION: u16 = 0x7034;
pub const CHROMATIC_ABERRATION_CORR_PARAMS: u16 = 0x7035;
pub const DISTORTION_CORRECTION: u16 = 0x7036;
pub const DISTORTION_CORR_PARAMS: u16 = 0x7037;
pub const SONY_RAW_IMAGE_SIZE: u16 = 0x7038;
pub const BLACK_LEVEL: u16 = 0x7310;
pub const WB_RGGBLEVELS: u16 = 0x7313;
pub const SONY_CROP_TOP_LEFT: u16 = 0x74c7;
pub const SONY_CROP_SIZE: u16 = 0x74c8;
pub const IMAGE_ID: u16 = 0x800d;
pub const WANG_TAG1: u16 = 0x80a3;
pub const WANG_ANNOTATION: u16 = 0x80a4;
pub const WANG_TAG3: u16 = 0x80a5;
pub const WANG_TAG4: u16 = 0x80a6;
pub const IMAGE_REFERENCE_POINTS: u16 = 0x80b9;
pub const REGION_XFORM_TACK_POINT: u16 = 0x80ba;
pub const WARP_QUADRILATERAL: u16 = 0x80bb;
pub const AFFINE_TRANSFORM_MAT: u16 = 0x80bc;
pub const MATTEING: u16 = 0x80e3;
pub const DATA_TYPE: u16 = 0x80e4;
pub const IMAGE_DEPTH: u16 = 0x80e5;
pub const TILE_DEPTH: u16 = 0x80e6;
pub const IMAGE_FULL_WIDTH: u16 = 0x8214;
pub const IMAGE_FULL_HEIGHT: u16 = 0x8215;
pub const TEXTURE_FORMAT: u16 = 0x8216;
pub const WRAP_MODES: u16 = 0x8217;
pub const FOV_COT: u16 = 0x8218;
pub const MATRIX_WORLD_TO_SCREEN: u16 = 0x8219;
pub const MATRIX_WORLD_TO_CAMERA: u16 = 0x821a;
pub const MODEL2: u16 = 0x827d;
pub const CFAREPEAT_PATTERN_DIM: u16 = 0x828d;
pub const CFAPATTERN2: u16 = 0x828e;
pub const BATTERY_LEVEL: u16 = 0x828f;
pub const KODAK_IFD: u16 = 0x8290;
pub const COPYRIGHT: u16 = 0x8298;
pub const EXPOSURE_TIME: u16 = 0x829a;
pub const FNUMBER: u16 = 0x829d;
pub const MDFILE_TAG: u16 = 0x82a5;
pub const MDSCALE_PIXEL: u16 = 0x82a6;
pub const MDCOLOR_TABLE: u16 = 0x82a7;
pub const MDLAB_NAME: u16 = 0x82a8;
pub const MDSAMPLE_INFO: u16 = 0x82a9;
pub const MDPREP_DATE: u16 = 0x82aa;
pub const MDPREP_TIME: u16 = 0x82ab;
pub const MDFILE_UNITS: u16 = 0x82ac;
pub const PIXEL_SCALE: u16 = 0x830e;
pub const ADVENT_SCALE: u16 = 0x8335;
pub const ADVENT_REVISION: u16 = 0x8336;
pub const UIC1TAG: u16 = 0x835c;
pub const UIC2TAG: u16 = 0x835d;
pub const UIC3TAG: u16 = 0x835e;
pub const UIC4TAG: u16 = 0x835f;
pub const IPTC_NAA: u16 = 0x83bb;
pub const INTERGRAPH_PACKET_DATA: u16 = 0x847e;
pub const INTERGRAPH_FLAG_REGISTERS: u16 = 0x847f;
pub const INTERGRAPH_MATRIX: u16 = 0x8480;
pub const INGRRESERVED: u16 = 0x8481;
pub const MODEL_TIE_POINT: u16 = 0x8482;
pub const SITE: u16 = 0x84e0;
pub const COLOR_SEQUENCE: u16 = 0x84e1;
pub const IT8HEADER: u16 = 0x84e2;
pub const RASTER_PADDING: u16 = 0x84e3;
pub const BITS_PER_RUN_LENGTH: u16 = 0x84e4;
pub const BITS_PER_EXTENDED_RUN_LENGTH: u16 = 0x84e5;
pub const COLOR_TABLE: u16 = 0x84e6;
pub const IMAGE_COLOR_INDICATOR: u16 = 0x84e7;
pub const BACKGROUND_COLOR_INDICATOR: u16 = 0x84e8;
pub const IMAGE_COLOR_VALUE: u16 = 0x84e9;
pub const BACKGROUND_COLOR_VALUE: u16 = 0x84ea;
pub const PIXEL_INTENSITY_RANGE: u16 = 0x84eb;
pub const TRANSPARENCY_INDICATOR: u16 = 0x84ec;
pub const COLOR_CHARACTERIZATION: u16 = 0x84ed;
pub const HCUSAGE: u16 = 0x84ee;
pub const TRAP_INDICATOR: u16 = 0x84ef;
pub const CMYKEQUIVALENT: u16 = 0x84f0;
pub const SEMINFO: u16 = 0x8546;
pub const AFCP_IPTC: u16 = 0x8568;
pub const PIXEL_MAGIC_JBIGOPTIONS: u16 = 0x85b8;
pub const JPLCARTO_IFD: u16 = 0x85d7;
pub const MODEL_TRANSFORM: u16 = 0x85d8;
pub const WB_GRGBLEVELS: u16 = 0x8602;
pub const LEAF_DATA: u16 = 0x8606;
pub const PHOTOSHOP_SETTINGS: u16 = 0x8649;
pub const EXIF_OFFSET: u16 = 0x8769;
pub const ICC_PROFILE: u16 = 0x8773;
pub const TIFF_FXEXTENSIONS: u16 = 0x877f;
pub const MULTI_PROFILES: u16 = 0x8780;
pub const SHARED_DATA: u16 = 0x8781;
pub const T88OPTIONS: u16 = 0x8782;
pub const IMAGE_LAYER: u16 = 0x87ac;
pub const GEO_TIFF_DIRECTORY: u16 = 0x87af;
pub const GEO_TIFF_DOUBLE_PARAMS: u16 = 0x87b0;
pub const GEO_TIFF_ASCII_PARAMS: u16 = 0x87b1;
pub const JBIGOPTIONS: u16 = 0x87be;
pub const EXPOSURE_PROGRAM: u16 = 0x8822;
pub const SPECTRAL_SENSITIVITY: u16 = 0x8824;
pub const GPSINFO: u16 = 0x8825;
pub const ISO: u16 = 0x8827;
pub const OPTO_ELECTRIC_CONV_FACTOR: u16 = 0x8828;
pub const INTERLACE: u16 = 0x8829;
pub const TIME_ZONE_OFFSET: u16 = 0x882a;
pub const SELF_TIMER_MODE: u16 = 0x882b;
pub const SENSITIVITY_TYPE: u16 = 0x8830;
pub const STANDARD_OUTPUT_SENSITIVITY: u16 = 0x8831;
pub const RECOMMENDED_EXPOSURE_INDEX: u16 = 0x8832;
pub const ISOSPEED: u16 = 0x8833;
pub const ISOSPEED_LATITUDEYYY: u16 = 0x8834;
pub const ISOSPEED_LATITUDEZZZ: u16 = 0x8835;
pub const FAX_RECV_PARAMS: u16 = 0x885c;
pub const FAX_SUB_ADDRESS: u16 = 0x885d;
pub const FAX_RECV_TIME: u16 = 0x885e;
pub const FEDEX_EDR: u16 = 0x8871;
pub const LEAF_SUB_IFD: u16 = 0x888a;
pub const EXIF_VERSION: u16 = 0x9000;
pub const DATE_TIME_ORIGINAL: u16 = 0x9003;
pub const CREATE_DATE: u16 = 0x9004;
pub const GOOGLE_PLUS_UPLOAD_CODE: u16 = 0x9009;
pub const OFFSET_TIME: u16 = 0x9010;
pub const OFFSET_TIME_ORIGINAL: u16 = 0x9011;
pub const OFFSET_TIME_DIGITIZED: u16 = 0x9012;
pub const COMPONENTS_CONFIGURATION: u16 = 0x9101;
pub const COMPRESSED_BITS_PER_PIXEL: u16 = 0x9102;
pub const SHUTTER_SPEED_VALUE: u16 = 0x9201;
pub const APERTURE_VALUE: u16 = 0x9202;
pub const BRIGHTNESS_VALUE: u16 = 0x9203;
pub const EXPOSURE_COMPENSATION: u16 = 0x9204;
pub const MAX_APERTURE_VALUE: u16 = 0x9205;
pub const SUBJECT_DISTANCE: u16 = 0x9206;
pub const METERING_MODE: u16 = 0x9207;
pub const LIGHT_SOURCE: u16 = 0x9208;
pub const FLASH: u16 = 0x9209;
pub const FOCAL_LENGTH: u16 = 0x920a;
pub const FLASH_ENERGY: u16 = 0x920b;
pub const SPATIAL_FREQUENCY_RESPONSE: u16 = 0x920c;
pub const NOISE: u16 = 0x920d;
pub const FOCAL_PLANE_XRESOLUTION: u16 = 0x920e;
pub const FOCAL_PLANE_YRESOLUTION: u16 = 0x920f;
pub const FOCAL_PLANE_RESOLUTION_UNIT: u16 = 0x9210;
pub const IMAGE_NUMBER: u16 = 0x9211;
pub const SECURITY_CLASSIFICATION: u16 = 0x9212;
pub const IMAGE_HISTORY: u16 = 0x9213;
pub const SUBJECT_AREA: u16 = 0x9214;
pub const EXPOSURE_INDEX: u16 = 0x9215;
pub const TIFF_EPSTANDARD_ID: u16 = 0x9216;
pub const SENSING_METHOD: u16 = 0x9217;
pub const CIP3DATA_FILE: u16 = 0x923a;
pub const CIP3SHEET: u16 = 0x923b;
pub const CIP3SIDE: u16 = 0x923c;
pub const STO_NITS: u16 = 0x923f;
pub const USER_COMMENT: u16 = 0x9286;
pub const SUB_SEC_TIME: u16 = 0x9290;
pub const SUB_SEC_TIME_ORIGINAL: u16 = 0x9291;
pub const SUB_SEC_TIME_DIGITIZED: u16 = 0x9292;
pub const MSDOCUMENT_TEXT: u16 = 0x932f;
pub const MSPROPERTY_SET_STORAGE: u16 = 0x9330;
pub const MSDOCUMENT_TEXT_POSITION: u16 = 0x9331;
pub const IMAGE_SOURCE_DATA: u16 = 0x935c;
pub const AMBIENT_TEMPERATURE: u16 = 0x9400;
pub const HUMIDITY: u16 = 0x9401;
pub const PRESSURE: u16 = 0x9402;
pub const WATER_DEPTH: u16 = 0x9403;
pub const ACCELERATION: u16 = 0x9404;
pub const CAMERA_ELEVATION_ANGLE: u16 = 0x9405;
pub const XIAOMI_SETTINGS: u16 = 0x9999;
pub const XIAOMI_MODEL: u16 = 0x9a00;
pub const XPTITLE: u16 = 0x9c9b;
pub const XPCOMMENT: u16 = 0x9c9c;
pub const XPAUTHOR: u16 = 0x9c9d;
pub const XPKEYWORDS: u16 = 0x9c9e;
pub const XPSUBJECT: u16 = 0x9c9f;
pub const FLASHPIX_VERSION: u16 = 0xa000;
pub const COLOR_SPACE: u16 = 0xa001;
pub const EXIF_IMAGE_WIDTH: u16 = 0xa002;
pub const EXIF_IMAGE_HEIGHT: u16 = 0xa003;
pub const RELATED_SOUND_FILE: u16 = 0xa004;
pub const INTEROP_OFFSET: u16 = 0xa005;
pub const SAMSUNG_RAW_POINTERS_OFFSET: u16 = 0xa010;
pub const SAMSUNG_RAW_POINTERS_LENGTH: u16 = 0xa011;
pub const SAMSUNG_RAW_BYTE_ORDER: u16 = 0xa101;
pub const SAMSUNG_RAW_UNKNOWN: u16 = 0xa102;
pub const SUBJECT_LOCATION: u16 = 0xa214;
pub const FILE_SOURCE: u16 = 0xa300;
pub const SCENE_TYPE: u16 = 0xa301;
pub const CFAPATTERN: u16 = 0xa302;
pub const CUSTOM_RENDERED: u16 = 0xa401;
pub const EXPOSURE_MODE: u16 = 0xa402;
pub const WHITE_BALANCE: u16 = 0xa403;
pub const DIGITAL_ZOOM_RATIO: u16 = 0xa404;
pub const FOCAL_LENGTH_IN35MM_FORMAT: u16 = 0xa405;
pub const SCENE_CAPTURE_TYPE: u16 = 0xa406;
pub const GAIN_CONTROL: u16 = 0xa407;
pub const CONTRAST: u16 = 0xa408;
pub const SATURATION: u16 = 0xa409;
pub const SHARPNESS: u16 = 0xa40a;
pub const DEVICE_SETTING_DESCRIPTION: u16 = 0xa40b;
pub const SUBJECT_DISTANCE_RANGE: u16 = 0xa40c;
pub const IMAGE_UNIQUE_ID: u16 = 0xa420;
pub const OWNER_NAME: u16 = 0xa430;
pub const SERIAL_NUMBER: u16 = 0xa431;
pub const LENS_INFO: u16 = 0xa432;
pub const LENS_MAKE: u16 = 0xa433;
pub const LENS_MODEL: u16 = 0xa434;
pub const LENS_SERIAL_NUMBER: u16 = 0xa435;
pub const IMAGE_TITLE: u16 = 0xa436;
pub const PHOTOGRAPHER: u16 = 0xa437;
pub const IMAGE_EDITOR: u16 = 0xa438;
pub const CAMERA_FIRMWARE: u16 = 0xa439;
pub const RAWDEVELOPING_SOFTWARE: u16 = 0xa43a;
pub const IMAGE_EDITING_SOFTWARE: u16 = 0xa43b;
pub const METADATA_EDITING_SOFTWARE: u16 = 0xa43c;
pub const COMPOSITE_IMAGE: u16 = 0xa460;
pub const COMPOSITE_IMAGE_COUNT: u16 = 0xa461;
pub const COMPOSITE_IMAGE_EXPOSURE_TIMES: u16 = 0xa462;
pub const GDALMETADATA: u16 = 0xa480;
pub const GDALNO_DATA: u16 = 0xa481;
pub const GAMMA: u16 = 0xa500;
pub const EXPAND_SOFTWARE: u16 = 0xafc0;
pub const EXPAND_LENS: u16 = 0xafc1;
pub const EXPAND_FILM: u16 = 0xafc2;
pub const EXPAND_FILTER_LENS: u16 = 0xafc3;
pub const EXPAND_SCANNER: u16 = 0xafc4;
pub const EXPAND_FLASH_LAMP: u16 = 0xafc5;
pub const HASSELBLAD_RAW_IMAGE: u16 = 0xb4c3;
pub const PIXEL_FORMAT: u16 = 0xbc01;
pub const TRANSFORMATION: u16 = 0xbc02;
pub const UNCOMPRESSED: u16 = 0xbc03;
pub const IMAGE_TYPE: u16 = 0xbc04;
pub const WIDTH_RESOLUTION: u16 = 0xbc82;
pub const HEIGHT_RESOLUTION: u16 = 0xbc83;
pub const IMAGE_OFFSET: u16 = 0xbcc0;
pub const IMAGE_BYTE_COUNT: u16 = 0xbcc1;
pub const ALPHA_OFFSET: u16 = 0xbcc2;
pub const ALPHA_BYTE_COUNT: u16 = 0xbcc3;
pub const IMAGE_DATA_DISCARD: u16 = 0xbcc4;
pub const ALPHA_DATA_DISCARD: u16 = 0xbcc5;
pub const OCE_SCANJOB_DESC: u16 = 0xc427;
pub const OCE_APPLICATION_SELECTOR: u16 = 0xc428;
pub const OCE_IDNUMBER: u16 = 0xc429;
pub const OCE_IMAGE_LOGIC: u16 = 0xc42a;
pub const ANNOTATIONS: u16 = 0xc44f;
pub const PRINT_IM: u16 = 0xc4a5;
pub const HASSELBLAD_XML: u16 = 0xc519;
pub const HASSELBLAD_EXIF: u16 = 0xc51b;
pub const ORIGINAL_FILE_NAME: u16 = 0xc573;
pub const USPTOORIGINAL_CONTENT_TYPE: u16 = 0xc580;
pub const CR2CFAPATTERN: u16 = 0xc5e0;
pub const DNGVERSION: u16 = 0xc612;
pub const DNGBACKWARD_VERSION: u16 = 0xc613;
pub const UNIQUE_CAMERA_MODEL: u16 = 0xc614;
pub const LOCALIZED_CAMERA_MODEL: u16 = 0xc615;
pub const CFAPLANE_COLOR: u16 = 0xc616;
pub const CFALAYOUT: u16 = 0xc617;
pub const LINEARIZATION_TABLE: u16 = 0xc618;
pub const BLACK_LEVEL_REPEAT_DIM: u16 = 0xc619;
pub const BLACK_LEVEL_DELTA_H: u16 = 0xc61b;
pub const BLACK_LEVEL_DELTA_V: u16 = 0xc61c;
pub const WHITE_LEVEL: u16 = 0xc61d;
pub const DEFAULT_SCALE: u16 = 0xc61e;
pub const DEFAULT_CROP_ORIGIN: u16 = 0xc61f;
pub const DEFAULT_CROP_SIZE: u16 = 0xc620;
pub const COLOR_MATRIX1: u16 = 0xc621;
pub const COLOR_MATRIX2: u16 = 0xc622;
pub const CAMERA_CALIBRATION1: u16 = 0xc623;
pub const CAMERA_CALIBRATION2: u16 = 0xc624;
pub const REDUCTION_MATRIX1: u16 = 0xc625;
pub const REDUCTION_MATRIX2: u16 = 0xc626;
pub const ANALOG_BALANCE: u16 = 0xc627;
pub const AS_SHOT_NEUTRAL: u16 = 0xc628;
pub const AS_SHOT_WHITE_XY: u16 = 0xc629;
pub const BASELINE_EXPOSURE: u16 = 0xc62a;
pub const BASELINE_NOISE: u16 = 0xc62b;
pub const BASELINE_SHARPNESS: u16 = 0xc62c;
pub const BAYER_GREEN_SPLIT: u16 = 0xc62d;
pub const LINEAR_RESPONSE_LIMIT: u16 = 0xc62e;
pub const CAMERA_SERIAL_NUMBER: u16 = 0xc62f;
pub const DNGLENS_INFO: u16 = 0xc630;
pub const CHROMA_BLUR_RADIUS: u16 = 0xc631;
pub const ANTI_ALIAS_STRENGTH: u16 = 0xc632;
pub const SHADOW_SCALE: u16 = 0xc633;
pub const MAKER_NOTE_SAFETY: u16 = 0xc635;
pub const RAW_IMAGE_SEGMENTATION: u16 = 0xc640;
pub const CALIBRATION_ILLUMINANT1: u16 = 0xc65a;
pub const CALIBRATION_ILLUMINANT2: u16 = 0xc65b;
pub const BEST_QUALITY_SCALE: u16 = 0xc65c;
pub const RAW_DATA_UNIQUE_ID: u16 = 0xc65d;
pub const ALIAS_LAYER_METADATA: u16 = 0xc660;
pub const ORIGINAL_RAW_FILE_NAME: u16 = 0xc68b;
pub const ORIGINAL_RAW_FILE_DATA: u16 = 0xc68c;
pub const ACTIVE_AREA: u16 = 0xc68d;
pub const MASKED_AREAS: u16 = 0xc68e;
pub const AS_SHOT_ICCPROFILE: u16 = 0xc68f;
pub const AS_SHOT_PRE_PROFILE_MATRIX: u16 = 0xc690;
pub const CURRENT_ICCPROFILE: u16 = 0xc691;
pub const CURRENT_PRE_PROFILE_MATRIX: u16 = 0xc692;
pub const COLORIMETRIC_REFERENCE: u16 = 0xc6bf;
pub const SRAW_TYPE: u16 = 0xc6c5;
pub const PANASONIC_TITLE: u16 = 0xc6d2;
pub const PANASONIC_TITLE2: u16 = 0xc6d3;
pub const CAMERA_CALIBRATION_SIG: u16 = 0xc6f3;
pub const PROFILE_CALIBRATION_SIG: u16 = 0xc6f4;
pub const PROFILE_IFD: u16 = 0xc6f5;
pub const AS_SHOT_PROFILE_NAME: u16 = 0xc6f6;
pub const NOISE_REDUCTION_APPLIED: u16 = 0xc6f7;
pub const PROFILE_NAME: u16 = 0xc6f8;
pub const PROFILE_HUE_SAT_MAP_DIMS: u16 = 0xc6f9;
pub const PROFILE_HUE_SAT_MAP_DATA1: u16 = 0xc6fa;
pub const PROFILE_HUE_SAT_MAP_DATA2: u16 = 0xc6fb;
pub const PROFILE_TONE_CURVE: u16 = 0xc6fc;
pub const PROFILE_EMBED_POLICY: u16 = 0xc6fd;
pub const PROFILE_COPYRIGHT: u16 = 0xc6fe;
pub const FORWARD_MATRIX1: u16 = 0xc714;
pub const FORWARD_MATRIX2: u16 = 0xc715;
pub const PREVIEW_APPLICATION_NAME: u16 = 0xc716;
pub const PREVIEW_APPLICATION_VERSION: u16 = 0xc717;
pub const PREVIEW_SETTINGS_NAME: u16 = 0xc718;
pub const PREVIEW_SETTINGS_DIGEST: u16 = 0xc719;
pub const PREVIEW_COLOR_SPACE: u16 = 0xc71a;
pub const PREVIEW_DATE_TIME: u16 = 0xc71b;
pub const RAW_IMAGE_DIGEST: u16 = 0xc71c;
pub const ORIGINAL_RAW_FILE_DIGEST: u16 = 0xc71d;
pub const SUB_TILE_BLOCK_SIZE: u16 = 0xc71e;
pub const ROW_INTERLEAVE_FACTOR: u16 = 0xc71f;
pub const PROFILE_LOOK_TABLE_DIMS: u16 = 0xc725;
pub const PROFILE_LOOK_TABLE_DATA: u16 = 0xc726;
pub const OPCODE_LIST1: u16 = 0xc740;
pub const OPCODE_LIST2: u16 = 0xc741;
pub const OPCODE_LIST3: u16 = 0xc74e;
pub const NOISE_PROFILE: u16 = 0xc761;
pub const TIME_CODES: u16 = 0xc763;
pub const FRAME_RATE: u16 = 0xc764;
pub const TSTOP: u16 = 0xc772;
pub const REEL_NAME: u16 = 0xc789;
pub const ORIGINAL_DEFAULT_FINAL_SIZE: u16 = 0xc791;
pub const ORIGINAL_BEST_QUALITY_SIZE: u16 = 0xc792;
pub const ORIGINAL_DEFAULT_CROP_SIZE: u16 = 0xc793;
pub const CAMERA_LABEL: u16 = 0xc7a1;
pub const PROFILE_HUE_SAT_MAP_ENCODING: u16 = 0xc7a3;
pub const PROFILE_LOOK_TABLE_ENCODING: u16 = 0xc7a4;
pub const BASELINE_EXPOSURE_OFFSET: u16 = 0xc7a5;
pub const DEFAULT_BLACK_RENDER: u16 = 0xc7a6;
pub const NEW_RAW_IMAGE_DIGEST: u16 = 0xc7a7;
pub const RAW_TO_PREVIEW_GAIN: u16 = 0xc7a8;
pub const CACHE_VERSION: u16 = 0xc7aa;
pub const DEFAULT_USER_CROP: u16 = 0xc7b5;
pub const NIKON_NEFINFO: u16 = 0xc7d5;
pub const ZIFMETADATA: u16 = 0xc7d7;
pub const ZIFANNOTATIONS: u16 = 0xc7d8;
pub const DEPTH_FORMAT: u16 = 0xc7e9;
pub const DEPTH_NEAR: u16 = 0xc7ea;
pub const DEPTH_FAR: u16 = 0xc7eb;
pub const DEPTH_UNITS: u16 = 0xc7ec;
pub const DEPTH_MEASURE_TYPE: u16 = 0xc7ed;
pub const ENHANCE_PARAMS: u16 = 0xc7ee;
pub const PROFILE_GAIN_TABLE_MAP: u16 = 0xcd2d;
pub const SEMANTIC_NAME: u16 = 0xcd2e;
pub const SEMANTIC_INSTANCE_ID: u16 = 0xcd30;
pub const CALIBRATION_ILLUMINANT3: u16 = 0xcd31;
pub const CAMERA_CALIBRATION3: u16 = 0xcd32;
pub const COLOR_MATRIX3: u16 = 0xcd33;
pub const FORWARD_MATRIX3: u16 = 0xcd34;
pub const ILLUMINANT_DATA1: u16 = 0xcd35;
pub const ILLUMINANT_DATA2: u16 = 0xcd36;
pub const ILLUMINANT_DATA3: u16 = 0xcd37;
pub const MASK_SUB_AREA: u16 = 0xcd38;
pub const PROFILE_HUE_SAT_MAP_DATA3: u16 = 0xcd39;
pub const REDUCTION_MATRIX3: u16 = 0xcd3a;
pub const RGBTABLES: u16 = 0xcd3f;
pub const PROFILE_GAIN_TABLE_MAP2: u16 = 0xcd40;
pub const JUMBF: u16 = 0xcd41;
pub const COLUMN_INTERLEAVE_FACTOR: u16 = 0xcd43;
pub const IMAGE_SEQUENCE_INFO: u16 = 0xcd44;
pub const IMAGE_STATS: u16 = 0xcd46;
pub const PROFILE_DYNAMIC_RANGE: u16 = 0xcd47;
pub const PROFILE_GROUP_NAME: u16 = 0xcd48;
pub const JXLDISTANCE: u16 = 0xcd49;
pub const JXLEFFORT: u16 = 0xcd4a;
pub const JXLDECODE_SPEED: u16 = 0xcd4b;
pub const SEAL: u16 = 0xcea1;
pub const PADDING: u16 = 0xea1c;
pub const OFFSET_SCHEMA: u16 = 0xea1d;
pub const LENS: u16 = 0xfdea;
pub const KDC_IFD: u16 = 0xfe00;
pub const RAW_FILE: u16 = 0xfe4c;
pub const CONVERTER: u16 = 0xfe4d;
pub const EXPOSURE: u16 = 0xfe51;
pub const SHADOWS: u16 = 0xfe52;
pub const BRIGHTNESS: u16 = 0xfe53;
pub const SMOOTHNESS: u16 = 0xfe57;
pub const MOIRE_FILTER: u16 = 0xfe58;

/// The registry: name and directory of every known tag.
pub open spec fn registry(tag: u16) -> Option<(&'static str, ExifSection)> {
    match tag {
        INTEROP_INDEX => Some(("InteropIndex", ExifSection::InteropIFD)),
        INTEROP_VERSION => Some(("InteropVersion", ExifSection::InteropIFD)),
        PROCESSING_SOFTWARE => Some(("ProcessingSoftware", ExifSection::IFD0)),
        SUBFILE_TYPE => Some(("SubfileType", ExifSection::IFD0)),
        OLD_SUBFILE_TYPE => Some(("OldSubfileType", ExifSection::IFD0)),
        IMAGE_WIDTH => Some(("ImageWidth", ExifSection::IFD0)),
        IMAGE_HEIGHT => Some(("ImageHeight", ExifSection::IFD0)),
        BITS_PER_SAMPLE => Some(("BitsPerSample", ExifSection::IFD0)),
        COMPRESSION => Some(("Compression", ExifSection::IFD0)),
        PHOTOMETRIC_INTERPRETATION => Some(("PhotometricInterpretation", ExifSection::IFD0)),
        THRESHOLDING => Some(("Thresholding", ExifSection::IFD0)),
        CELL_WIDTH => Some(("CellWidth", ExifSection::IFD0)),
        CELL_LENGTH => Some(("CellLength", ExifSection::IFD0)),
        FILL_ORDER => Some(("FillOrder", ExifSection::IFD0)),
        DOCUMENT_NAME => Some(("DocumentName", ExifSection::IFD0)),
        IMAGE_DESCRIPTION => Some(("ImageDescription", ExifSection::IFD0)),
        MAKE => Some(("Make", ExifSection::IFD0)),
        MODEL => Some(("Model", ExifSection::IFD0)),
        ORIENTATION => Some(("Orientation", ExifSection::IFD0)),
        SAMPLES_PER_PIXEL => Some(("SamplesPerPixel", ExifSection::IFD0)),
        ROWS_PER_STRIP => Some(("RowsPerStrip", ExifSection::IFD0)),
        MIN_SAMPLE_VALUE => Some(("MinSampleValue", ExifSection::IFD0)),
        MAX_SAMPLE_VALUE => Some(("MaxSampleValue", ExifSection::IFD0)),
        XRESOLUTION => Some(("XResolution", ExifSection::IFD0)),
        YRESOLUTION => Some(("YResolution", ExifSection::IFD0)),
        PLANAR_CONFIGURATION => Some(("PlanarConfiguration", ExifSection::IFD0)),
        PAGE_NAME => Some(("PageName", ExifSection::IFD0)),
        XPOSITION => Some(("XPosition", ExifSection::IFD0)),
        YPOSITION => Some(("YPosition", ExifSection::IFD0)),
        FREE_OFFSETS => Some(("FreeOffsets", ExifSection::NONE)),
        FREE_BYTE_COUNTS => Some(("FreeByteCounts", ExifSection::NONE)),
        GRAY_RESPONSE_UNIT => Some(("GrayResponseUnit", ExifSection::IFD0)),
        GRAY_RESPONSE_CURVE => Some(("GrayResponseCurve", ExifSection::NONE)),
        T4OPTIONS => Some(("T4Options", ExifSection::NONE)),
        T6OPTIONS => Some(("T6Options", ExifSection::NONE)),
        RESOLUTION_UNIT => Some(("ResolutionUnit", ExifSection::IFD0)),
        PAGE_NUMBER => Some(("PageNumber", ExifSection::IFD0)),
        COLOR_RESPONSE_UNIT => Some(("ColorResponseUnit", ExifSection::NONE)),
        TRANSFER_FUNCTION => Some(("TransferFunction", ExifSection::IFD0)),
        SOFTWARE => Some(("Software", ExifSection::IFD0)),
        MODIFY_DATE => Some(("ModifyDate", ExifSection::IFD0)),
        ARTIST => Some(("Artist", ExifSection::IFD0)),
        HOST_COMPUTER => Some(("HostComputer", ExifSection::IFD0)),
        PREDICTOR => Some(("Predictor", ExifSection::IFD0)),
        WHITE_POINT => Some(("WhitePoint", ExifSection::IFD0)),
        PRIMARY_CHROMATICITIES => Some(("PrimaryChromaticities", ExifSection::IFD0)),
        COLOR_MAP => Some(("ColorMap", ExifSection::NONE)),
        HALFTONE_HINTS => Some(("HalftoneHints", ExifSection::IFD0)),
        TILE_WIDTH => Some(("TileWidth", ExifSection::IFD0)),
        TILE_LENGTH => Some(("TileLength", ExifSection::IFD0)),
        TILE_OFFSETS => Some(("TileOffsets", ExifSection::NONE)),
        TILE_BYTE_COUNTS => Some(("TileByteCounts", ExifSection::NONE)),
        BAD_FAX_LINES => Some(("BadFaxLines", ExifSection::NONE)),
        CLEAN_FAX_DATA => Some(("CleanFaxData", ExifSection::NONE)),
        CONSECUTIVE_BAD_FAX_LINES => Some(("ConsecutiveBadFaxLines", ExifSection::NONE)),
        INK_SET => Some(("InkSet", ExifSection::IFD0)),
        INK_NAMES => Some(("InkNames", ExifSection::NONE)),
        NUMBEROF_INKS => Some(("NumberofInks", ExifSection::NONE)),
        DOT_RANGE => Some(("DotRange", ExifSection::NONE)),
        TARGET_PRINTER => Some(("TargetPrinter", ExifSection::IFD0)),
        EXTRA_SAMPLES => Some(("ExtraSamples", ExifSection::NONE)),
        SAMPLE_FORMAT => Some(("SampleFormat", ExifSection::SubIFD)),
        SMIN_SAMPLE_VALUE => Some(("SMinSampleValue", ExifSection::NONE)),
        SMAX_SAMPLE_VALUE => Some(("SMaxSampleValue", ExifSection::NONE)),
        TRANSFER_RANGE => Some(("TransferRange", ExifSection::NONE)),
        CLIP_PATH => Some(("ClipPath", ExifSection::NONE)),
        XCLIP_PATH_UNITS => Some(("XClipPathUnits", ExifSection::NONE)),
        YCLIP_PATH_UNITS => Some(("YClipPathUnits", ExifSection::NONE)),
        INDEXED => Some(("Indexed", ExifSection::NONE)),
        JPEGTABLES => Some(("JPEGTables", ExifSection::NONE)),
        OPIPROXY => Some(("OPIProxy", ExifSection::NONE)),
        GLOBAL_PARAMETERS_IFD => Some(("GlobalParametersIFD", ExifSection::NONE)),
        PROFILE_TYPE => Some(("ProfileType", ExifSection::NONE)),
        FAX_PROFILE => Some(("FaxProfile", ExifSection::NONE)),
        CODING_METHODS => Some(("CodingMethods", ExifSection::NONE)),
        VERSION_YEAR => Some(("VersionYear", ExifSection::NONE)),
        MODE_NUMBER => Some(("ModeNumber", ExifSection::NONE)),
        DECODE => Some(("Decode", ExifSection::NONE)),
        DEFAULT_IMAGE_COLOR => Some(("DefaultImageColor", ExifSection::NONE)),
        T82OPTIONS => Some(("T82Options", ExifSection::NONE)),
        JPEGPROC => Some(("JPEGProc", ExifSection::NONE)),
        JPEGRESTART_INTERVAL => Some(("JPEGRestartInterval", ExifSection::NONE)),
        JPEGLOSSLESS_PREDICTORS => Some(("JPEGLosslessPredictors", ExifSection::NONE)),
        JPEGPOINT_TRANSFORMS => Some(("JPEGPointTransforms", ExifSection::NONE)),
        JPEGQTABLES => Some(("JPEGQTables", ExifSection::NONE)),
        JPEGDCTABLES => Some(("JPEGDCTables", ExifSection::NONE)),
        JPEGACTABLES => Some(("JPEGACTables", ExifSection::NONE)),
        YCB_CR_COEFFICIENTS => Some(("YCbCrCoefficients", ExifSection::IFD0)),
        YCB_CR_SUB_SAMPLING => Some(("YCbCrSubSampling", ExifSection::IFD0)),
        YCB_CR_POSITIONING => Some(("YCbCrPositioning", ExifSection::IFD0)),
        REFERENCE_BLACK_WHITE => Some(("ReferenceBlackWhite", ExifSection::IFD0)),
        STRIP_ROW_COUNTS => Some(("StripRowCounts", ExifSection::NONE)),
        APPLICATION_NOTES => Some(("ApplicationNotes", ExifSection::IFD0)),
        RENDERING_INTENT => Some(("RenderingIntent", ExifSection::NONE)),
        USPTOMISCELLANEOUS => Some(("USPTOMiscellaneous", ExifSection::NONE)),
        RELATED_IMAGE_FILE_FORMAT => Some(("RelatedImageFileFormat", ExifSection::InteropIFD)),
        RELATED_IMAGE_WIDTH => Some(("RelatedImageWidth", ExifSection::InteropIFD)),
        RELATED_IMAGE_HEIGHT => Some(("RelatedImageHeight", ExifSection::InteropIFD)),
        RATING => Some(("Rating", ExifSection::IFD0)),
        XP_DIP_XML => Some(("XP_DIP_XML", ExifSection::NONE)),
        STITCH_INFO => Some(("StitchInfo", ExifSection::NONE)),
        RATING_PERCENT => Some(("RatingPercent", ExifSection::IFD0)),
        RESOLUTION_XUNIT => Some(("ResolutionXUnit", ExifSection::NONE)),
        RESOLUTION_YUNIT => Some(("ResolutionYUnit", ExifSection::NONE)),
        RESOLUTION_XLENGTH_UNIT => Some(("ResolutionXLengthUnit", ExifSection::NONE)),
        RESOLUTION_YLENGTH_UNIT => Some(("ResolutionYLengthUnit", ExifSection::NONE)),
        PRINT_FLAGS => Some(("PrintFlags", ExifSection::NONE)),
        PRINT_FLAGS_VERSION => Some(("PrintFlagsVersion", ExifSection::NONE)),
        PRINT_FLAGS_CROP => Some(("PrintFlagsCrop", ExifSection::NONE)),
        PRINT_FLAGS_BLEED_WIDTH => Some(("PrintFlagsBleedWidth", ExifSection::NONE)),
        PRINT_FLAGS_BLEED_WIDTH_SCALE => Some(("PrintFlagsBleedWidthScale", ExifSection::NONE)),
        HALFTONE_LPI => Some(("HalftoneLPI", ExifSection::NONE)),
        HALFTONE_LPIUNIT => Some(("HalftoneLPIUnit", ExifSection::NONE)),
        HALFTONE_DEGREE => Some(("HalftoneDegree", ExifSection::NONE)),
        HALFTONE_SHAPE => Some(("HalftoneShape", ExifSection::NONE)),
        HALFTONE_MISC => Some(("HalftoneMisc", ExifSection::NONE)),
        HALFTONE_SCREEN => Some(("HalftoneScreen", ExifSection::NONE)),
        JPEGQUALITY => Some(("JPEGQuality", ExifSection::NONE)),
        GRID_SIZE => Some(("GridSize", ExifSection::NONE)),
        THUMBNAIL_FORMAT => Some(("ThumbnailFormat", ExifSection::NONE)),
        THUMBNAIL_WIDTH => Some(("ThumbnailWidth", ExifSection::NONE)),
        THUMBNAIL_HEIGHT => Some(("ThumbnailHeight", ExifSection::NONE)),
        THUMBNAIL_COLOR_DEPTH => Some(("ThumbnailColorDepth", ExifSection::NONE)),
        THUMBNAIL_PLANES => Some(("ThumbnailPlanes", ExifSection::NONE)),
        THUMBNAIL_RAW_BYTES => Some(("ThumbnailRawBytes", ExifSection::NONE)),
        THUMBNAIL_LENGTH => Some(("ThumbnailLength", ExifSection::NONE)),
        THUMBNAIL_COMPRESSED_SIZE => Some(("ThumbnailCompressedSize", ExifSection::NONE)),
        COLOR_TRANSFER_FUNCTION => Some(("ColorTransferFunction", ExifSection::NONE)),
        THUMBNAIL_DATA => Some(("ThumbnailData", ExifSection::NONE)),
        THUMBNAIL_IMAGE_WIDTH => Some(("ThumbnailImageWidth", ExifSection::NONE)),
        THUMBNAIL_IMAGE_HEIGHT => Some(("ThumbnailImageHeight", ExifSection::NONE)),
        THUMBNAIL_BITS_PER_SAMPLE => Some(("ThumbnailBitsPerSample", ExifSection::NONE)),
        THUMBNAIL_COMPRESSION => Some(("ThumbnailCompression", ExifSection::NONE)),
        THUMBNAIL_PHOTOMETRIC_INTERP => Some(("ThumbnailPhotometricInterp", ExifSection::NONE)),
        THUMBNAIL_DESCRIPTION => Some(("ThumbnailDescription", ExifSection::NONE)),
        THUMBNAIL_EQUIP_MAKE => Some(("ThumbnailEquipMake", ExifSection::NONE)),
        THUMBNAIL_EQUIP_MODEL => Some(("ThumbnailEquipModel", ExifSection::NONE)),
        THUMBNAIL_STRIP_OFFSETS => Some(("ThumbnailStripOffsets", ExifSection::NONE)),
        THUMBNAIL_ORIENTATION => Some(("ThumbnailOrientation", ExifSection::NONE)),
        THUMBNAIL_SAMPLES_PER_PIXEL => Some(("ThumbnailSamplesPerPixel", ExifSection::NONE)),
        THUMBNAIL_ROWS_PER_STRIP => Some(("ThumbnailRowsPerStrip", ExifSection::NONE)),
        THUMBNAIL_STRIP_BYTE_COUNTS => Some(("ThumbnailStripByteCounts", ExifSection::NONE)),
        THUMBNAIL_RESOLUTION_X => Some(("ThumbnailResolutionX", ExifSection::NONE)),
        THUMBNAIL_RESOLUTION_Y => Some(("ThumbnailResolutionY", ExifSection::NONE)),
        THUMBNAIL_PLANAR_CONFIG => Some(("ThumbnailPlanarConfig", ExifSection::NONE)),
        THUMBNAIL_RESOLUTION_UNIT => Some(("ThumbnailResolutionUnit", ExifSection::NONE)),
        THUMBNAIL_TRANSFER_FUNCTION => Some(("ThumbnailTransferFunction", ExifSection::NONE)),
        THUMBNAIL_SOFTWARE => Some(("ThumbnailSoftware", ExifSection::NONE)),
        THUMBNAIL_DATE_TIME => Some(("ThumbnailDateTime", ExifSection::NONE)),
        THUMBNAIL_ARTIST => Some(("ThumbnailArtist", ExifSection::NONE)),
        THUMBNAIL_WHITE_POINT => Some(("ThumbnailWhitePoint", ExifSection::NONE)),
        THUMBNAIL_PRIMARY_CHROMATICITIES => Some(("ThumbnailPrimaryChromaticities", ExifSection::NONE)),
        THUMBNAIL_YCB_CR_COEFFICIENTS => Some(("ThumbnailYCbCrCoefficients", ExifSection::NONE)),
        THUMBNAIL_YCB_CR_SUBSAMPLING => Some(("ThumbnailYCbCrSubsampling", ExifSection::NONE)),
        THUMBNAIL_YCB_CR_POSITIONING => Some(("ThumbnailYCbCrPositioning", ExifSection::NONE)),
        THUMBNAIL_REF_BLACK_WHITE => Some(("ThumbnailRefBlackWhite", ExifSection::NONE)),
        THUMBNAIL_COPYRIGHT => Some(("ThumbnailCopyright", ExifSection::NONE)),
        LUMINANCE_TABLE => Some(("LuminanceTable", ExifSection::NONE)),
        CHROMINANCE_TABLE => Some(("ChrominanceTable", ExifSection::NONE)),
        FRAME_DELAY => Some(("FrameDelay", ExifSection::NONE)),
        LOOP_COUNT => Some(("LoopCount", ExifSection::NONE)),
        GLOBAL_PALETTE => Some(("GlobalPalette", ExifSection::NONE)),
        INDEX_BACKGROUND => Some(("IndexBackground", ExifSection::NONE)),
        INDEX_TRANSPARENT => Some(("IndexTransparent", ExifSection::NONE)),
        PIXEL_UNITS => Some(("PixelUnits", ExifSection::NONE)),
        PIXELS_PER_UNIT_X => Some(("PixelsPerUnitX", ExifSection::NONE)),
        PIXELS_PER_UNIT_Y => Some(("PixelsPerUnitY", ExifSection::NONE)),
        PALETTE_HISTOGRAM => Some(("PaletteHistogram", ExifSection::NONE)),
        SONY_RAW_FILE_TYPE => Some(("SonyRawFileType", ExifSection::NONE)),
        SONY_TONE_CURVE => Some(("SonyToneCurve", ExifSection::NONE)),
        VIGNETTING_CORRECTION => Some(("VignettingCorrection", ExifSection::SubIFD)),
        VIGNETTING_CORR_PARAMS => Some(("VignettingCorrParams", ExifSection::SubIFD)),
        CHROMATIC_ABERRATION_CORRECTION => Some(("ChromaticAberrationCorrection", ExifSection::SubIFD)),
        CHROMATIC_ABERRATION_CORR_PARAMS => Some(("ChromaticAberrationCorrParams", ExifSection::SubIFD)),
        DISTORTION_CORRECTION => Some(("DistortionCorrection", ExifSection::SubIFD)),
        DISTORTION_CORR_PARAMS => Some(("DistortionCorrParams", ExifSection::SubIFD)),
        SONY_RAW_IMAGE_SIZE => Some(("SonyRawImageSize", ExifSection::SubIFD)),
        BLACK_LEVEL => Some(("BlackLevel", ExifSection::SubIFD)),
        WB_RGGBLEVELS => Some(("WB_RGGBLevels", ExifSection::SubIFD)),
        SONY_CROP_TOP_LEFT => Some(("SonyCropTopLeft", ExifSection::SubIFD)),
        SONY_CROP_SIZE => Some(("SonyCropSize", ExifSection::SubIFD)),
        IMAGE_ID => Some(("ImageID", ExifSection::NONE)),
        WANG_TAG1 => Some(("WangTag1", ExifSection::NONE)),
        WANG_ANNOTATION => Some(("WangAnnotation", ExifSection::NONE)),
        WANG_TAG3 => Some(("WangTag3", ExifSection::NONE)),
        WANG_TAG4 => Some(("WangTag4", ExifSection::NONE)),
        IMAGE_REFERENCE_POINTS => Some(("ImageReferencePoints", ExifSection::NONE)),
        REGION_XFORM_TACK_POINT => Some(("RegionXformTackPoint", ExifSection::NONE)),
        WARP_QUADRILATERAL => Some(("WarpQuadrilateral", ExifSection::NONE)),
        AFFINE_TRANSFORM_MAT => Some(("AffineTransformMat", ExifSection::NONE)),
        MATTEING => Some(("Matteing", ExifSection::NONE)),
        DATA_TYPE => Some(("DataType", ExifSection::NONE)),
        IMAGE_DEPTH => Some(("ImageDepth", ExifSection::NONE)),
        TILE_DEPTH => Some(("TileDepth", ExifSection::NONE)),
        IMAGE_FULL_WIDTH => Some(("ImageFullWidth", ExifSection::NONE)),
        IMAGE_FULL_HEIGHT => Some(("ImageFullHeight", ExifSection::NONE)),
        TEXTURE_FORMAT => Some(("TextureFormat", ExifSection::NONE)),
        WRAP_MODES => Some(("WrapModes", ExifSection::NONE)),
        FOV_COT => Some(("FovCot", ExifSection::NONE)),
        MATRIX_WORLD_TO_SCREEN => Some(("MatrixWorldToScreen", ExifSection::NONE)),
        MATRIX_WORLD_TO_CAMERA => Some(("MatrixWorldToCamera", ExifSection::NONE)),
        MODEL2 => Some(("Model2", ExifSection::NONE)),
        CFAREPEAT_PATTERN_DIM => Some(("CFARepeatPatternDim", ExifSection::SubIFD)),
        CFAPATTERN2 => Some(("CFAPattern2", ExifSection::SubIFD)),
        BATTERY_LEVEL => Some(("BatteryLevel", ExifSection::NONE)),
        KODAK_IFD => Some(("KodakIFD", ExifSection::NONE)),
        COPYRIGHT => Some(("Copyright", ExifSection::IFD0)),
        EXPOSURE_TIME => Some(("ExposureTime", ExifSection::ExifIFD)),
        FNUMBER => Some(("FNumber", ExifSection::ExifIFD)),
        MDFILE_TAG => Some(("MDFileTag", ExifSection::NONE)),
        MDSCALE_PIXEL => Some(("MDScalePixel", ExifSection::NONE)),
        MDCOLOR_TABLE => Some(("MDColorTable", ExifSection::NONE)),
        MDLAB_NAME => Some(("MDLabName", ExifSection::NONE)),
        MDSAMPLE_INFO => Some(("MDSampleInfo", ExifSection::NONE)),
        MDPREP_DATE => Some(("MDPrepDate", ExifSection::NONE)),
        MDPREP_TIME => Some(("MDPrepTime", ExifSection::NONE)),
        MDFILE_UNITS => Some(("MDFileUnits", ExifSection::NONE)),
        PIXEL_SCALE => Some(("PixelScale", ExifSection::IFD0)),
        ADVENT_SCALE => Some(("AdventScale", ExifSection::NONE)),
        ADVENT_REVISION => Some(("AdventRevision", ExifSection::NONE)),
        UIC1TAG => Some(("UIC1Tag", ExifSection::NONE)),
        UIC2TAG => Some(("UIC2Tag", ExifSection::NONE)),
        UIC3TAG => Some(("UIC3Tag", ExifSection::NONE)),
        UIC4TAG => Some(("UIC4Tag", ExifSection::NONE)),
        IPTC_NAA => Some(("IPTC-NAA", ExifSection::IFD0)),
        INTERGRAPH_PACKET_DATA => Some(("IntergraphPacketData", ExifSection::NONE)),
        INTERGRAPH_FLAG_REGISTERS => Some(("IntergraphFlagRegisters", ExifSection::NONE)),
        INTERGRAPH_MATRIX => Some(("IntergraphMatrix", ExifSection::IFD0)),
        INGRRESERVED => Some(("INGRReserved", ExifSection::NONE)),
        MODEL_TIE_POINT => Some(("ModelTiePoint", ExifSection::IFD0)),
        SITE => Some(("Site", ExifSection::NONE)),
        COLOR_SEQUENCE => Some(("ColorSequence", ExifSection::NONE)),
        IT8HEADER => Some(("IT8Header", ExifSection::NONE)),
        RASTER_PADDING => Some(("RasterPadding", ExifSection::NONE)),
        BITS_PER_RUN_LENGTH => Some(("BitsPerRunLength", ExifSection::NONE)),
        BITS_PER_EXTENDED_RUN_LENGTH => Some(("BitsPerExtendedRunLength", ExifSection::NONE)),
        COLOR_TABLE => Some(("ColorTable", ExifSection::NONE)),
        IMAGE_COLOR_INDICATOR => Some(("ImageColorIndicator", ExifSection::NONE)),
        BACKGROUND_COLOR_INDICATOR => Some(("BackgroundColorIndicator", ExifSection::NONE)),
        IMAGE_COLOR_VALUE => Some(("ImageColorValue", ExifSection::NONE)),
        BACKGROUND_COLOR_VALUE => Some(("BackgroundColorValue", ExifSection::NONE)),
        PIXEL_INTENSITY_RANGE => Some(("PixelIntensityRange", ExifSection::NONE)),
        TRANSPARENCY_INDICATOR => Some(("TransparencyIndicator", ExifSection::NONE)),
        COLOR_CHARACTERIZATION => Some(("ColorCharacterization", ExifSection::NONE)),
        HCUSAGE => Some(("HCUsage", ExifSection::NONE)),
        TRAP_INDICATOR => Some(("TrapIndicator", ExifSection::NONE)),
        CMYKEQUIVALENT => Some(("CMYKEquivalent", ExifSection::NONE)),
        SEMINFO => Some(("SEMInfo", ExifSection::IFD0)),
        AFCP_IPTC => Some(("AFCP_IPTC", ExifSection::NONE)),
        PIXEL_MAGIC_JBIGOPTIONS => Some(("PixelMagicJBIGOptions", ExifSection::NONE)),
        JPLCARTO_IFD => Some(("JPLCartoIFD", ExifSection::NONE)),
        MODEL_TRANSFORM => Some(("ModelTransform", ExifSection::IFD0)),
        WB_GRGBLEVELS => Some(("WB_GRGBLevels", ExifSection::NONE)),
        LEAF_DATA => Some(("LeafData", ExifSection::NONE)),
        PHOTOSHOP_SETTINGS => Some(("PhotoshopSettings", ExifSection::IFD0)),
        EXIF_OFFSET => Some(("ExifOffset", ExifSection::IFD0)),
        ICC_PROFILE => Some(("ICC_Profile", ExifSection::IFD0)),
        TIFF_FXEXTENSIONS => Some(("TIFF_FXExtensions", ExifSection::NONE)),
        MULTI_PROFILES => Some(("MultiProfiles", ExifSection::NONE)),
        SHARED_DATA => Some(("SharedData", ExifSection::NONE)),
        T88OPTIONS => Some(("T88Options", ExifSection::NONE)),
        IMAGE_LAYER => Some(("ImageLayer", ExifSection::NONE)),
        GEO_TIFF_DIRECTORY => Some(("GeoTiffDirectory", ExifSection::IFD0)),
        GEO_TIFF_DOUBLE_PARAMS => Some(("GeoTiffDoubleParams", ExifSection::IFD0)),
        GEO_TIFF_ASCII_PARAMS => Some(("GeoTiffAsciiParams", ExifSection::IFD0)),
        JBIGOPTIONS => Some(("JBIGOptions", ExifSection::NONE)),
        EXPOSURE_PROGRAM => Some(("ExposureProgram", ExifSection::ExifIFD)),
        SPECTRAL_SENSITIVITY => Some(("SpectralSensitivity", ExifSection::ExifIFD)),
        GPSINFO => Some(("GPSInfo", ExifSection::IFD0)),
        ISO => Some(("ISO", ExifSection::ExifIFD)),
        OPTO_ELECTRIC_CONV_FACTOR => Some(("Opto-ElectricConvFactor", ExifSection::NONE)),
        INTERLACE => Some(("Interlace", ExifSection::NONE)),
        TIME_ZONE_OFFSET => Some(("TimeZoneOffset", ExifSection::ExifIFD)),
        SELF_TIMER_MODE => Some(("SelfTimerMode", ExifSection::ExifIFD)),
        SENSITIVITY_TYPE => Some(("SensitivityType", ExifSection::ExifIFD)),
        STANDARD_OUTPUT_SENSITIVITY => Some(("StandardOutputSensitivity", ExifSection::ExifIFD)),
        RECOMMENDED_EXPOSURE_INDEX => Some(("RecommendedExposureIndex", ExifSection::ExifIFD)),
        ISOSPEED => Some(("ISOSpeed", ExifSection::ExifIFD)),
        ISOSPEED_LATITUDEYYY => Some(("ISOSpeedLatitudeyyy", ExifSection::ExifIFD)),
        ISOSPEED_LATITUDEZZZ => Some(("ISOSpeedLatitudezzz", ExifSection::ExifIFD)),
        FAX_RECV_PARAMS => Some(("FaxRecvParams", ExifSection::NONE)),
        FAX_SUB_ADDRESS => Some(("FaxSubAddress", ExifSection::NONE)),
        FAX_RECV_TIME => Some(("FaxRecvTime", ExifSection::NONE)),
        FEDEX_EDR => Some(("FedexEDR", ExifSection::NONE)),
        LEAF_SUB_IFD => Some(("LeafSubIFD", ExifSection::NONE)),
        EXIF_VERSION => Some(("ExifVersion", ExifSection::ExifIFD)),
        DATE_TIME_ORIGINAL => Some(("DateTimeOriginal", ExifSection::ExifIFD)),
        CREATE_DATE => Some(("CreateDate", ExifSection::ExifIFD)),
        GOOGLE_PLUS_UPLOAD_CODE => Some(("GooglePlusUploadCode", ExifSection::ExifIFD)),
        OFFSET_TIME => Some(("OffsetTime", ExifSection::ExifIFD)),
        OFFSET_TIME_ORIGINAL => Some(("OffsetTimeOriginal", ExifSection::ExifIFD)),
        OFFSET_TIME_DIGITIZED => Some(("OffsetTimeDigitized", ExifSection::ExifIFD)),
        COMPONENTS_CONFIGURATION => Some(("ComponentsConfiguration", ExifSection::ExifIFD)),
        COMPRESSED_BITS_PER_PIXEL => Some(("CompressedBitsPerPixel", ExifSection::ExifIFD)),
        SHUTTER_SPEED_VALUE => Some(("ShutterSpeedValue", ExifSection::ExifIFD)),
        APERTURE_VALUE => Some(("ApertureValue", ExifSection::ExifIFD)),
        BRIGHTNESS_VALUE => Some(("BrightnessValue", ExifSection::ExifIFD)),
        EXPOSURE_COMPENSATION => Some(("ExposureCompensation", ExifSection::ExifIFD)),
        MAX_APERTURE_VALUE => Some(("MaxApertureValue", ExifSection::ExifIFD)),
        SUBJECT_DISTANCE => Some(("SubjectDistance", ExifSection::ExifIFD)),
        METERING_MODE => Some(("MeteringMode", ExifSection::ExifIFD)),
        LIGHT_SOURCE => Some(("LightSource", ExifSection::ExifIFD)),
        FLASH => Some(("Flash", ExifSection::ExifIFD)),
        FOCAL_LENGTH => Some(("FocalLength", ExifSection::ExifIFD)),
        FLASH_ENERGY => Some(("FlashEnergy", ExifSection::NONE)),
        SPATIAL_FREQUENCY_RESPONSE => Some(("SpatialFrequencyResponse", ExifSection::NONE)),
        NOISE => Some(("Noise", ExifSection::NONE)),
        FOCAL_PLANE_XRESOLUTION => Some(("FocalPlaneXResolution", ExifSection::NONE)),
        FOCAL_PLANE_YRESOLUTION => Some(("FocalPlaneYResolution", ExifSection::NONE)),
        FOCAL_PLANE_RESOLUTION_UNIT => Some(("FocalPlaneResolutionUnit", ExifSection::NONE)),
        IMAGE_NUMBER => Some(("ImageNumber", ExifSection::ExifIFD)),
        SECURITY_CLASSIFICATION => Some(("SecurityClassification", ExifSection::ExifIFD)),
        IMAGE_HISTORY => Some(("ImageHistory", ExifSection::ExifIFD)),
        SUBJECT_AREA => Some(("SubjectArea", ExifSection::ExifIFD)),
        EXPOSURE_INDEX => Some(("ExposureIndex", ExifSection::NONE)),
        TIFF_EPSTANDARD_ID => Some(("TIFF-EPStandardID", ExifSection::NONE)),
        SENSING_METHOD => Some(("SensingMethod", ExifSection::NONE)),
        CIP3DATA_FILE => Some(("CIP3DataFile", ExifSection::NONE)),
        CIP3SHEET => Some(("CIP3Sheet", ExifSection::NONE)),
        CIP3SIDE => Some(("CIP3Side", ExifSection::NONE)),
        STO_NITS => Some(("StoNits", ExifSection::NONE)),
        USER_COMMENT => Some(("UserComment", ExifSection::ExifIFD)),
        SUB_SEC_TIME => Some(("SubSecTime", ExifSection::ExifIFD)),
        SUB_SEC_TIME_ORIGINAL => Some(("SubSecTimeOriginal", ExifSection::ExifIFD)),
        SUB_SEC_TIME_DIGITIZED => Some(("SubSecTimeDigitized", ExifSection::ExifIFD)),
        MSDOCUMENT_TEXT => Some(("MSDocumentText", ExifSection::NONE)),
        MSPROPERTY_SET_STORAGE => Some(("MSPropertySetStorage", ExifSection::NONE)),
        MSDOCUMENT_TEXT_POSITION => Some(("MSDocumentTextPosition", ExifSection::NONE)),
        IMAGE_SOURCE_DATA => Some(("ImageSourceData", ExifSection::IFD0)),
        AMBIENT_TEMPERATURE => Some(("AmbientTemperature", ExifSection::ExifIFD)),
        HUMIDITY => Some(("Humidity", ExifSection::ExifIFD)),
        PRESSURE => Some(("Pressure", ExifSection::ExifIFD)),
        WATER_DEPTH => Some(("WaterDepth", ExifSection::ExifIFD)),
        ACCELERATION => Some(("Acceleration", ExifSection::ExifIFD)),
        CAMERA_ELEVATION_ANGLE => Some(("CameraElevationAngle", ExifSection::ExifIFD)),
        XIAOMI_SETTINGS => Some(("XiaomiSettings", ExifSection::ExifIFD)),
        XIAOMI_MODEL => Some(("XiaomiModel", ExifSection::ExifIFD)),
        XPTITLE => Some(("XPTitle", ExifSection::IFD0)),
        XPCOMMENT => Some(("XPComment", ExifSection::IFD0)),
        XPAUTHOR => Some(("XPAuthor", ExifSection::IFD0)),
        XPKEYWORDS => Some(("XPKeywords", ExifSection::IFD0)),
        XPSUBJECT => Some(("XPSubject", ExifSection::IFD0)),
        FLASHPIX_VERSION => Some(("FlashpixVersion", ExifSection::ExifIFD)),
        COLOR_SPACE => Some(("ColorSpace", ExifSection::ExifIFD)),
        EXIF_IMAGE_WIDTH => Some(("ExifImageWidth", ExifSection::ExifIFD)),
        EXIF_IMAGE_HEIGHT => Some(("ExifImageHeight", ExifSection::ExifIFD)),
        RELATED_SOUND_FILE => Some(("RelatedSoundFile", ExifSection::ExifIFD)),
        INTEROP_OFFSET => Some(("InteropOffset", ExifSection::NONE)),
        SAMSUNG_RAW_POINTERS_OFFSET => Some(("SamsungRawPointersOffset", ExifSection::NONE)),
        SAMSUNG_RAW_POINTERS_LENGTH => Some(("SamsungRawPointersLength", ExifSection::NONE)),
        SAMSUNG_RAW_BYTE_ORDER => Some(("SamsungRawByteOrder", ExifSection::NONE)),
        SAMSUNG_RAW_UNKNOWN => Some(("SamsungRawUnknown?", ExifSection::NONE)),
        SUBJECT_LOCATION => Some(("SubjectLocation", ExifSection::ExifIFD)),
        FILE_SOURCE => Some(("FileSource", ExifSection::ExifIFD)),
        SCENE_TYPE => Some(("SceneType", ExifSection::ExifIFD)),
        CFAPATTERN => Some(("CFAPattern", ExifSection::ExifIFD)),
        CUSTOM_RENDERED => Some(("CustomRendered", ExifSection::ExifIFD)),
        EXPOSURE_MODE => Some(("ExposureMode", ExifSection::ExifIFD)),
        WHITE_BALANCE => Some(("WhiteBalance", ExifSection::ExifIFD)),
        DIGITAL_ZOOM_RATIO => Some(("DigitalZoomRatio", ExifSection::ExifIFD)),
        FOCAL_LENGTH_IN35MM_FORMAT => Some(("FocalLengthIn35mmFormat", ExifSection::ExifIFD)),
        SCENE_CAPTURE_TYPE => Some(("SceneCaptureType", ExifSection::ExifIFD)),
        GAIN_CONTROL => Some(("GainControl", ExifSection::ExifIFD)),
        CONTRAST => Some(("Contrast", ExifSection::ExifIFD)),
        SATURATION => Some(("Saturation", ExifSection::ExifIFD)),
        SHARPNESS => Some(("Sharpness", ExifSection::ExifIFD)),
        DEVICE_SETTING_DESCRIPTION => Some(("DeviceSettingDescription", ExifSection::NONE)),
        SUBJECT_DISTANCE_RANGE => Some(("SubjectDistanceRange", ExifSection::ExifIFD)),
        IMAGE_UNIQUE_ID => Some(("ImageUniqueID", ExifSection::ExifIFD)),
        OWNER_NAME => Some(("OwnerName", ExifSection::ExifIFD)),
        SERIAL_NUMBER => Some(("SerialNumber", ExifSection::ExifIFD)),
        LENS_INFO => Some(("LensInfo", ExifSection::ExifIFD)),
        LENS_MAKE => Some(("LensMake", ExifSection::ExifIFD)),
        LENS_MODEL => Some(("LensModel", ExifSection::ExifIFD)),
        LENS_SERIAL_NUMBER => Some(("LensSerialNumber", ExifSection::ExifIFD)),
        IMAGE_TITLE => Some(("ImageTitle", ExifSection::ExifIFD)),
        PHOTOGRAPHER => Some(("Photographer", ExifSection::ExifIFD)),
        IMAGE_EDITOR => Some(("ImageEditor", ExifSection::ExifIFD)),
        CAMERA_FIRMWARE => Some(("CameraFirmware", ExifSection::ExifIFD)),
        RAWDEVELOPING_SOFTWARE => Some(("RAWDevelopingSoftware", ExifSection::ExifIFD)),
        IMAGE_EDITING_SOFTWARE => Some(("ImageEditingSoftware", ExifSection::ExifIFD)),
        METADATA_EDITING_SOFTWARE => Some(("MetadataEditingSoftware", ExifSection::ExifIFD)),
        COMPOSITE_IMAGE => Some(("CompositeImage", ExifSection::ExifIFD)),
        COMPOSITE_IMAGE_COUNT => Some(("CompositeImageCount", ExifSection::ExifIFD)),
        COMPOSITE_IMAGE_EXPOSURE_TIMES => Some(("CompositeImageExposureTimes", ExifSection::ExifIFD)),
        GDALMETADATA => Some(("GDALMetadata", ExifSection::IFD0)),
        GDALNO_DATA => Some(("GDALNoData", ExifSection::IFD0)),
        GAMMA => Some(("Gamma", ExifSection::ExifIFD)),
        EXPAND_SOFTWARE => Some(("ExpandSoftware", ExifSection::NONE)),
        EXPAND_LENS => Some(("ExpandLens", ExifSection::NONE)),
        EXPAND_FILM => Some(("ExpandFilm", ExifSection::NONE)),
        EXPAND_FILTER_LENS => Some(("ExpandFilterLens", ExifSection::NONE)),
        EXPAND_SCANNER => Some(("ExpandScanner", ExifSection::NONE)),
        EXPAND_FLASH_LAMP => Some(("ExpandFlashLamp", ExifSection::NONE)),
        HASSELBLAD_RAW_IMAGE => Some(("HasselbladRawImage", ExifSection::NONE)),
        PIXEL_FORMAT => Some(("PixelFormat", ExifSection::NONE)),
        TRANSFORMATION => Some(("Transformation", ExifSection::NONE)),
        UNCOMPRESSED => Some(("Uncompressed", ExifSection::NONE)),
        IMAGE_TYPE => Some(("ImageType", ExifSection::NONE)),
        WIDTH_RESOLUTION => Some(("WidthResolution", ExifSection::NONE)),
        HEIGHT_RESOLUTION => Some(("HeightResolution", ExifSection::NONE)),
        IMAGE_OFFSET => Some(("ImageOffset", ExifSection::NONE)),
        IMAGE_BYTE_COUNT => Some(("ImageByteCount", ExifSection::NONE)),
        ALPHA_OFFSET => Some(("AlphaOffset", ExifSection::NONE)),
        ALPHA_BYTE_COUNT => Some(("AlphaByteCount", ExifSection::NONE)),
        IMAGE_DATA_DISCARD => Some(("ImageDataDiscard", ExifSection::NONE)),
        ALPHA_DATA_DISCARD => Some(("AlphaDataDiscard", ExifSection::NONE)),
        OCE_SCANJOB_DESC => Some(("OceScanjobDesc", ExifSection::NONE)),
        OCE_APPLICATION_SELECTOR => Some(("OceApplicationSelector", ExifSection::NONE)),
        OCE_IDNUMBER => Some(("OceIDNumber", ExifSection::NONE)),
        OCE_IMAGE_LOGIC => Some(("OceImageLogic", ExifSection::NONE)),
        ANNOTATIONS => Some(("Annotations", ExifSection::NONE)),
        PRINT_IM => Some(("PrintIM", ExifSection::IFD0)),
        HASSELBLAD_XML => Some(("HasselbladXML", ExifSection::NONE)),
        HASSELBLAD_EXIF => Some(("HasselbladExif", ExifSection::NONE)),
        ORIGINAL_FILE_NAME => Some(("OriginalFileName", ExifSection::NONE)),
        USPTOORIGINAL_CONTENT_TYPE => Some(("USPTOOriginalContentType", ExifSection::NONE)),
        CR2CFAPATTERN => Some(("CR2CFAPattern", ExifSection::NONE)),
        DNGVERSION => Some(("DNGVersion", ExifSection::IFD0)),
        DNGBACKWARD_VERSION => Some(("DNGBackwardVersion", ExifSection::IFD0)),
        UNIQUE_CAMERA_MODEL => Some(("UniqueCameraModel", ExifSection::IFD0)),
        LOCALIZED_CAMERA_MODEL => Some(("LocalizedCameraModel", ExifSection::IFD0)),
        CFAPLANE_COLOR => Some(("CFAPlaneColor", ExifSection::SubIFD)),
        CFALAYOUT => Some(("CFALayout", ExifSection::SubIFD)),
        LINEARIZATION_TABLE => Some(("LinearizationTable", ExifSection::SubIFD)),
        BLACK_LEVEL_REPEAT_DIM => Some(("BlackLevelRepeatDim", ExifSection::SubIFD)),
        BLACK_LEVEL_DELTA_H => Some(("BlackLevelDeltaH", ExifSection::SubIFD)),
        BLACK_LEVEL_DELTA_V => Some(("BlackLevelDeltaV", ExifSection::SubIFD)),
        WHITE_LEVEL => Some(("WhiteLevel", ExifSection::SubIFD)),
        DEFAULT_SCALE => Some(("DefaultScale", ExifSection::SubIFD)),
        DEFAULT_CROP_ORIGIN => Some(("DefaultCropOrigin", ExifSection::SubIFD)),
        DEFAULT_CROP_SIZE => Some(("DefaultCropSize", ExifSection::SubIFD)),
        COLOR_MATRIX1 => Some(("ColorMatrix1", ExifSection::IFD0)),
        COLOR_MATRIX2 => Some(("ColorMatrix2", ExifSection::IFD0)),
        CAMERA_CALIBRATION1 => Some(("CameraCalibration1", ExifSection::IFD0)),
        CAMERA_CALIBRATION2 => Some(("CameraCalibration2", ExifSection::IFD0)),
        REDUCTION_MATRIX1 => Some(("ReductionMatrix1", ExifSection::IFD0)),
        REDUCTION_MATRIX2 => Some(("ReductionMatrix2", ExifSection::IFD0)),
        ANALOG_BALANCE => Some(("AnalogBalance", ExifSection::IFD0)),
        AS_SHOT_NEUTRAL => Some(("AsShotNeutral", ExifSection::IFD0)),
        AS_SHOT_WHITE_XY => Some(("AsShotWhiteXY", ExifSection::IFD0)),
        BASELINE_EXPOSURE => Some(("BaselineExposure", ExifSection::IFD0)),
        BASELINE_NOISE => Some(("BaselineNoise", ExifSection::IFD0)),
        BASELINE_SHARPNESS => Some(("BaselineSharpness", ExifSection::IFD0)),
        BAYER_GREEN_SPLIT => Some(("BayerGreenSplit", ExifSection::SubIFD)),
        LINEAR_RESPONSE_LIMIT => Some(("LinearResponseLimit", ExifSection::IFD0)),
        CAMERA_SERIAL_NUMBER => Some(("CameraSerialNumber", ExifSection::IFD0)),
        DNGLENS_INFO => Some(("DNGLensInfo", ExifSection::IFD0)),
        CHROMA_BLUR_RADIUS => Some(("ChromaBlurRadius", ExifSection::SubIFD)),
        ANTI_ALIAS_STRENGTH => Some(("AntiAliasStrength", ExifSection::SubIFD)),
        SHADOW_SCALE => Some(("ShadowScale", ExifSection::IFD0)),
        MAKER_NOTE_SAFETY => Some(("MakerNoteSafety", ExifSection::IFD0)),
        RAW_IMAGE_SEGMENTATION => Some(("RawImageSegmentation", ExifSection::NONE)),
        CALIBRATION_ILLUMINANT1 => Some(("CalibrationIlluminant1", ExifSection::IFD0)),
        CALIBRATION_ILLUMINANT2 => Some(("CalibrationIlluminant2", ExifSection::IFD0)),
        BEST_QUALITY_SCALE => Some(("BestQualityScale", ExifSection::SubIFD)),
        RAW_DATA_UNIQUE_ID => Some(("RawDataUniqueID", ExifSection::IFD0)),
        ALIAS_LAYER_METADATA => Some(("AliasLayerMetadata", ExifSection::NONE)),
        ORIGINAL_RAW_FILE_NAME => Some(("OriginalRawFileName", ExifSection::IFD0)),
        ORIGINAL_RAW_FILE_DATA => Some(("OriginalRawFileData", ExifSection::IFD0)),
        ACTIVE_AREA => Some(("ActiveArea", ExifSection::SubIFD)),
        MASKED_AREAS => Some(("MaskedAreas", ExifSection::SubIFD)),
        AS_SHOT_ICCPROFILE => Some(("AsShotICCProfile", ExifSection::IFD0)),
        AS_SHOT_PRE_PROFILE_MATRIX => Some(("AsShotPreProfileMatrix", ExifSection::IFD0)),
        CURRENT_ICCPROFILE => Some(("CurrentICCProfile", ExifSection::IFD0)),
        CURRENT_PRE_PROFILE_MATRIX => Some(("CurrentPreProfileMatrix", ExifSection::IFD0)),
        COLORIMETRIC_REFERENCE => Some(("ColorimetricReference", ExifSection::IFD0)),
        SRAW_TYPE => Some(("SRawType", ExifSection::IFD0)),
        PANASONIC_TITLE => Some(("PanasonicTitle", ExifSection::IFD0)),
        PANASONIC_TITLE2 => Some(("PanasonicTitle2", ExifSection::IFD0)),
        CAMERA_CALIBRATION_SIG => Some(("CameraCalibrationSig", ExifSection::IFD0)),
        PROFILE_CALIBRATION_SIG => Some(("ProfileCalibrationSig", ExifSection::IFD0)),
        PROFILE_IFD => Some(("ProfileIFD", ExifSection::IFD0)),
        AS_SHOT_PROFILE_NAME => Some(("AsShotProfileName", ExifSection::IFD0)),
        NOISE_REDUCTION_APPLIED => Some(("NoiseReductionApplied", ExifSection::SubIFD)),
        PROFILE_NAME => Some(("ProfileName", ExifSection::IFD0)),
        PROFILE_HUE_SAT_MAP_DIMS => Some(("ProfileHueSatMapDims", ExifSection::IFD0)),
        PROFILE_HUE_SAT_MAP_DATA1 => Some(("ProfileHueSatMapData1", ExifSection::IFD0)),
        PROFILE_HUE_SAT_MAP_DATA2 => Some(("ProfileHueSatMapData2", ExifSection::IFD0)),
        PROFILE_TONE_CURVE => Some(("ProfileToneCurve", ExifSection::IFD0)),
        PROFILE_EMBED_POLICY => Some(("ProfileEmbedPolicy", ExifSection::IFD0)),
        PROFILE_COPYRIGHT => Some(("ProfileCopyright", ExifSection::IFD0)),
        FORWARD_MATRIX1 => Some(("ForwardMatrix1", ExifSection::IFD0)),
        FORWARD_MATRIX2 => Some(("ForwardMatrix2", ExifSection::IFD0)),
        PREVIEW_APPLICATION_NAME => Some(("PreviewApplicationName", ExifSection::IFD0)),
        PREVIEW_APPLICATION_VERSION => Some(("PreviewApplicationVersion", ExifSection::IFD0)),
        PREVIEW_SETTINGS_NAME => Some(("PreviewSettingsName", ExifSection::IFD0)),
        PREVIEW_SETTINGS_DIGEST => Some(("PreviewSettingsDigest", ExifSection::IFD0)),
        PREVIEW_COLOR_SPACE => Some(("PreviewColorSpace", ExifSection::IFD0)),
        PREVIEW_DATE_TIME => Some(("PreviewDateTime", ExifSection::IFD0)),
        RAW_IMAGE_DIGEST => Some(("RawImageDigest", ExifSection::IFD0)),
        ORIGINAL_RAW_FILE_DIGEST => Some(("OriginalRawFileDigest", ExifSection::IFD0)),
        SUB_TILE_BLOCK_SIZE => Some(("SubTileBlockSize", ExifSection::NONE)),
        ROW_INTERLEAVE_FACTOR => Some(("RowInterleaveFactor", ExifSection::NONE)),
        PROFILE_LOOK_TABLE_DIMS => Some(("ProfileLookTableDims", ExifSection::IFD0)),
        PROFILE_LOOK_TABLE_DATA => Some(("ProfileLookTableData", ExifSection::IFD0)),
        OPCODE_LIST1 => Some(("OpcodeList1", ExifSection::SubIFD)),
        OPCODE_LIST2 => Some(("OpcodeList2", ExifSection::SubIFD)),
        OPCODE_LIST3 => Some(("OpcodeList3", ExifSection::SubIFD)),
        NOISE_PROFILE => Some(("NoiseProfile", ExifSection::SubIFD)),
        TIME_CODES => Some(("TimeCodes", ExifSection::IFD0)),
        FRAME_RATE => Some(("FrameRate", ExifSection::IFD0)),
        TSTOP => Some(("TStop", ExifSection::IFD0)),
        REEL_NAME => Some(("ReelName", ExifSection::IFD0)),
        ORIGINAL_DEFAULT_FINAL_SIZE => Some(("OriginalDefaultFinalSize", ExifSection::IFD0)),
        ORIGINAL_BEST_QUALITY_SIZE => Some(("OriginalBestQualitySize", ExifSection::IFD0)),
        ORIGINAL_DEFAULT_CROP_SIZE => Some(("OriginalDefaultCropSize", ExifSection::IFD0)),
        CAMERA_LABEL => Some(("CameraLabel", ExifSection::IFD0)),
        PROFILE_HUE_SAT_MAP_ENCODING => Some(("ProfileHueSatMapEncoding", ExifSection::IFD0)),
        PROFILE_LOOK_TABLE_ENCODING => Some(("ProfileLookTableEncoding", ExifSection::IFD0)),
        BASELINE_EXPOSURE_OFFSET => Some(("BaselineExposureOffset", ExifSection::IFD0)),
        DEFAULT_BLACK_RENDER => Some(("DefaultBlackRender", ExifSection::IFD0)),
        NEW_RAW_IMAGE_DIGEST => Some(("NewRawImageDigest", ExifSection::IFD0)),
        RAW_TO_PREVIEW_GAIN => Some(("RawToPreviewGain", ExifSection::IFD0)),
        CACHE_VERSION => Some(("CacheVersion", ExifSection::SubIFD2)),
        DEFAULT_USER_CROP => Some(("DefaultUserCrop", ExifSection::SubIFD)),
        NIKON_NEFINFO => Some(("NikonNEFInfo", ExifSection::NONE)),
        ZIFMETADATA => Some(("ZIFMetadata", ExifSection::NONE)),
        ZIFANNOTATIONS => Some(("ZIFAnnotations", ExifSection::NONE)),
        DEPTH_FORMAT => Some(("DepthFormat", ExifSection::IFD0)),
        DEPTH_NEAR => Some(("DepthNear", ExifSection::IFD0)),
        DEPTH_FAR => Some(("DepthFar", ExifSection::IFD0)),
        DEPTH_UNITS => Some(("DepthUnits", ExifSection::IFD0)),
        DEPTH_MEASURE_TYPE => Some(("DepthMeasureType", ExifSection::IFD0)),
        ENHANCE_PARAMS => Some(("EnhanceParams", ExifSection::IFD0)),
        PROFILE_GAIN_TABLE_MAP => Some(("ProfileGainTableMap", ExifSection::SubIFD)),
        SEMANTIC_NAME => Some(("SemanticName", ExifSection::SubIFD)),
        SEMANTIC_INSTANCE_ID => Some(("SemanticInstanceID", ExifSection::SubIFD)),
        CALIBRATION_ILLUMINANT3 => Some(("CalibrationIlluminant3", ExifSection::IFD0)),
        CAMERA_CALIBRATION3 => Some(("CameraCalibration3", ExifSection::IFD0)),
        COLOR_MATRIX3 => Some(("ColorMatrix3", ExifSection::IFD0)),
        FORWARD_MATRIX3 => Some(("ForwardMatrix3", ExifSection::IFD0)),
        ILLUMINANT_DATA1 => Some(("IlluminantData1", ExifSection::IFD0)),
        ILLUMINANT_DATA2 => Some(("IlluminantData2", ExifSection::IFD0)),
        ILLUMINANT_DATA3 => Some(("IlluminantData3", ExifSection::IFD0)),
        MASK_SUB_AREA => Some(("MaskSubArea", ExifSection::SubIFD)),
        PROFILE_HUE_SAT_MAP_DATA3 => Some(("ProfileHueSatMapData3", ExifSection::IFD0)),
        REDUCTION_MATRIX3 => Some(("ReductionMatrix3", ExifSection::IFD0)),
        RGBTABLES => Some(("RGBTables", ExifSection::IFD0)),
        PROFILE_GAIN_TABLE_MAP2 => Some(("ProfileGainTableMap2", ExifSection::IFD0)),
        JUMBF => Some(("JUMBF", ExifSection::NONE)),
        COLUMN_INTERLEAVE_FACTOR => Some(("ColumnInterleaveFactor", ExifSection::SubIFD)),
        IMAGE_SEQUENCE_INFO => Some(("ImageSequenceInfo", ExifSection::IFD0)),
        IMAGE_STATS => Some(("ImageStats", ExifSection::IFD0)),
        PROFILE_DYNAMIC_RANGE => Some(("ProfileDynamicRange", ExifSection::IFD0)),
        PROFILE_GROUP_NAME => Some(("ProfileGroupName", ExifSection::IFD0)),
        JXLDISTANCE => Some(("JXLDistance", ExifSection::IFD0)),
        JXLEFFORT => Some(("JXLEffort", ExifSection::IFD0)),
        JXLDECODE_SPEED => Some(("JXLDecodeSpeed", ExifSection::IFD0)),
        SEAL => Some(("SEAL", ExifSection::IFD0)),
        PADDING => Some(("Padding", ExifSection::ExifIFD)),
        OFFSET_SCHEMA => Some(("OffsetSchema", ExifSection::ExifIFD)),
        LENS => Some(("Lens", ExifSection::ExifIFD)),
        KDC_IFD => Some(("KDC_IFD", ExifSection::NONE)),
        RAW_FILE => Some(("RawFile", ExifSection::ExifIFD)),
        CONVERTER => Some(("Converter", ExifSection::ExifIFD)),
        EXPOSURE => Some(("Exposure", ExifSection::ExifIFD)),
        SHADOWS => Some(("Shadows", ExifSection::ExifIFD)),
        BRIGHTNESS => Some(("Brightness", ExifSection::ExifIFD)),
        SMOOTHNESS => Some(("Smoothness", ExifSection::ExifIFD)),
        MOIRE_FILTER => Some(("MoireFilter", ExifSection::ExifIFD)),
        _ => None,
    }
}

/// The registry entry of `tag`, if the tag is known (see [`registry`]).
pub fn get_exif_field(tag: u16) -> (r: Option<ExifField>)
    ensures
        r is Some <==> registry(tag) is Some,
        r matches Some(f) ==> f.tag == tag && registry(tag) == Some((f.name, f.section)),
{
    let (name, section) = match tag {
        INTEROP_INDEX => ("InteropIndex", ExifSection::InteropIFD),
        INTEROP_VERSION => ("InteropVersion", ExifSection::InteropIFD),
        PROCESSING_SOFTWARE => ("ProcessingSoftware", ExifSection::IFD0),
        SUBFILE_TYPE => ("SubfileType", ExifSection::IFD0),
        OLD_SUBFILE_TYPE => ("OldSubfileType", ExifSection::IFD0),
        IMAGE_WIDTH => ("ImageWidth", ExifSection::IFD0),
        IMAGE_HEIGHT => ("ImageHeight", ExifSection::IFD0),
        BITS_PER_SAMPLE => ("BitsPerSample", ExifSection::IFD0),
        COMPRESSION => ("Compression", ExifSection::IFD0),
        PHOTOMETRIC_INTERPRETATION => ("PhotometricInterpretation", ExifSection::IFD0),
        THRESHOLDING => ("Thresholding", ExifSection::IFD0),
        CELL_WIDTH => ("CellWidth", ExifSection::IFD0),
        CELL_LENGTH => ("CellLength", ExifSection::IFD0),
        FILL_ORDER => ("FillOrder", ExifSection::IFD0),
        DOCUMENT_NAME => ("DocumentName", ExifSection::IFD0),
        IMAGE_DESCRIPTION => ("ImageDescription", ExifSection::IFD0),
        MAKE => ("Make", ExifSection::IFD0),
        MODEL => ("Model", ExifSection::IFD0),
        ORIENTATION => ("Orientation", ExifSection::IFD0),
        SAMPLES_PER_PIXEL => ("SamplesPerPixel", ExifSection::IFD0),
        ROWS_PER_STRIP => ("RowsPerStrip", ExifSection::IFD0),
        MIN_SAMPLE_VALUE => ("MinSampleValue", ExifSection::IFD0),
        MAX_SAMPLE_VALUE => ("MaxSampleValue", ExifSection::IFD0),
        XRESOLUTION => ("XResolution", ExifSection::IFD0),
        YRESOLUTION => ("YResolution", ExifSection::IFD0),
        PLANAR_CONFIGURATION => ("PlanarConfiguration", ExifSection::IFD0),
        PAGE_NAME => ("PageName", ExifSection::IFD0),
        XPOSITION => ("XPosition", ExifSection::IFD0),
        YPOSITION => ("YPosition", ExifSection::IFD0),
        FREE_OFFSETS => ("FreeOffsets", ExifSection::NONE),
        FREE_BYTE_COUNTS => ("FreeByteCounts", ExifSection::NONE),
        GRAY_RESPONSE_UNIT => ("GrayResponseUnit", ExifSection::IFD0),
        GRAY_RESPONSE_CURVE => ("GrayResponseCurve", ExifSection::NONE),
        T4OPTIONS => ("T4Options", ExifSection::NONE),
        T6OPTIONS => ("T6Options", ExifSection::NONE),
        RESOLUTION_UNIT => ("ResolutionUnit", ExifSection::IFD0),
        PAGE_NUMBER => ("PageNumber", ExifSection::IFD0),
        COLOR_RESPONSE_UNIT => ("ColorResponseUnit", ExifSection::NONE),
        TRANSFER_FUNCTION => ("TransferFunction", ExifSection::IFD0),
        SOFTWARE => ("Software", ExifSection::IFD0),
        MODIFY_DATE => ("ModifyDate", ExifSection::IFD0),
        ARTIST => ("Artist", ExifSection::IFD0),
        HOST_COMPUTER => ("HostComputer", ExifSection::IFD0),
        PREDICTOR => ("Predictor", ExifSection::IFD0),
        WHITE_POINT => ("WhitePoint", ExifSection::IFD0),
        PRIMARY_CHROMATICITIES => ("PrimaryChromaticities", ExifSection::IFD0),
        COLOR_MAP => ("ColorMap", ExifSection::NONE),
        HALFTONE_HINTS => ("HalftoneHints", ExifSection::IFD0),
        TILE_WIDTH => ("TileWidth", ExifSection::IFD0),
        TILE_LENGTH => ("TileLength", ExifSection::IFD0),
        TILE_OFFSETS => ("TileOffsets", ExifSection::NONE),
        TILE_BYTE_COUNTS => ("TileByteCounts", ExifSection::NONE),
        BAD_FAX_LINES => ("BadFaxLines", ExifSection::NONE),
        CLEAN_FAX_DATA => ("CleanFaxData", ExifSection::NONE),
        CONSECUTIVE_BAD_FAX_LINES => ("ConsecutiveBadFaxLines", ExifSection::NONE),
        INK_SET => ("InkSet", ExifSection::IFD0),
        INK_NAMES => ("InkNames", ExifSection::NONE),
        NUMBEROF_INKS => ("NumberofInks", ExifSection::NONE),
        DOT_RANGE => ("DotRange", ExifSection::NONE),
        TARGET_PRINTER => ("TargetPrinter", ExifSection::IFD0),
        EXTRA_SAMPLES => ("ExtraSamples", ExifSection::NONE),
        SAMPLE_FORMAT => ("SampleFormat", ExifSection::SubIFD),
        SMIN_SAMPLE_VALUE => ("SMinSampleValue", ExifSection::NONE),
        SMAX_SAMPLE_VALUE => ("SMaxSampleValue", ExifSection::NONE),
        TRANSFER_RANGE => ("TransferRange", ExifSection::NONE),
        CLIP_PATH => ("ClipPath", ExifSection::NONE),
        XCLIP_PATH_UNITS => ("XClipPathUnits", ExifSection::NONE),
        YCLIP_PATH_UNITS => ("YClipPathUnits", ExifSection::NONE),
        INDEXED => ("Indexed", ExifSection::NONE),
        JPEGTABLES => ("JPEGTables", ExifSection::NONE),
        OPIPROXY => ("OPIProxy", ExifSection::NONE),
        GLOBAL_PARAMETERS_IFD => ("GlobalParametersIFD", ExifSection::NONE),
        PROFILE_TYPE => ("ProfileType", ExifSection::NONE),
        FAX_PROFILE => ("FaxProfile", ExifSection::NONE),
        CODING_METHODS => ("CodingMethods", ExifSection::NONE),
        VERSION_YEAR => ("VersionYear", ExifSection::NONE),
        MODE_NUMBER => ("ModeNumber", ExifSection::NONE),
        DECODE => ("Decode", ExifSection::NONE),
        DEFAULT_IMAGE_COLOR => ("DefaultImageColor", ExifSection::NONE),
        T82OPTIONS => ("T82Options", ExifSection::NONE),
        JPEGPROC => ("JPEGProc", ExifSection::NONE),
        JPEGRESTART_INTERVAL => ("JPEGRestartInterval", ExifSection::NONE),
        JPEGLOSSLESS_PREDICTORS => ("JPEGLosslessPredictors", ExifSection::NONE),
        JPEGPOINT_TRANSFORMS => ("JPEGPointTransforms", ExifSection::NONE),
        JPEGQTABLES => ("JPEGQTables", ExifSection::NONE),
        JPEGDCTABLES => ("JPEGDCTables", ExifSection::NONE),
        JPEGACTABLES => ("JPEGACTables", ExifSection::NONE),
        YCB_CR_COEFFICIENTS => ("YCbCrCoefficients", ExifSection::IFD0),
        YCB_CR_SUB_SAMPLING => ("YCbCrSubSampling", ExifSection::IFD0),
        YCB_CR_POSITIONING => ("YCbCrPositioning", ExifSection::IFD0),
        REFERENCE_BLACK_WHITE => ("ReferenceBlackWhite", ExifSection::IFD0),
        STRIP_ROW_COUNTS => ("StripRowCounts", ExifSection::NONE),
        APPLICATION_NOTES => ("ApplicationNotes", ExifSection::IFD0),
        RENDERING_INTENT => ("RenderingIntent", ExifSection::NONE),
        USPTOMISCELLANEOUS => ("USPTOMiscellaneous", ExifSection::NONE),
        RELATED_IMAGE_FILE_FORMAT => ("RelatedImageFileFormat", ExifSection::InteropIFD),
        RELATED_IMAGE_WIDTH => ("RelatedImageWidth", ExifSection::InteropIFD),
        RELATED_IMAGE_HEIGHT => ("RelatedImageHeight", ExifSection::InteropIFD),
        RATING => ("Rating", ExifSection::IFD0),
        XP_DIP_XML => ("XP_DIP_XML", ExifSection::NONE),
        STITCH_INFO => ("StitchInfo", ExifSection::NONE),
        RATING_PERCENT => ("RatingPercent", ExifSection::IFD0),
        RESOLUTION_XUNIT => ("ResolutionXUnit", ExifSection::NONE),
        RESOLUTION_YUNIT => ("ResolutionYUnit", ExifSection::NONE),
        RESOLUTION_XLENGTH_UNIT => ("ResolutionXLengthUnit", ExifSection::NONE),
        RESOLUTION_YLENGTH_UNIT => ("ResolutionYLengthUnit", ExifSection::NONE),
        PRINT_FLAGS => ("PrintFlags", ExifSection::NONE),
        PRINT_FLAGS_VERSION => ("PrintFlagsVersion", ExifSection::NONE),
        PRINT_FLAGS_CROP => ("PrintFlagsCrop", ExifSection::NONE),
        PRINT_FLAGS_BLEED_WIDTH => ("PrintFlagsBleedWidth", ExifSection::NONE),
        PRINT_FLAGS_BLEED_WIDTH_SCALE => ("PrintFlagsBleedWidthScale", ExifSection::NONE),
        HALFTONE_LPI => ("HalftoneLPI", ExifSection::NONE),
        HALFTONE_LPIUNIT => ("HalftoneLPIUnit", ExifSection::NONE),
        HALFTONE_DEGREE => ("HalftoneDegree", ExifSection::NONE),
        HALFTONE_SHAPE => ("HalftoneShape", ExifSection::NONE),
        HALFTONE_MISC => ("HalftoneMisc", ExifSection::NONE),
        HALFTONE_SCREEN => ("HalftoneScreen", ExifSection::NONE),
        JPEGQUALITY => ("JPEGQuality", ExifSection::NONE),
        GRID_SIZE => ("GridSize", ExifSection::NONE),
        THUMBNAIL_FORMAT => ("ThumbnailFormat", ExifSection::NONE),
        THUMBNAIL_WIDTH => ("ThumbnailWidth", ExifSection::NONE),
        THUMBNAIL_HEIGHT => ("ThumbnailHeight", ExifSection::NONE),
        THUMBNAIL_COLOR_DEPTH => ("ThumbnailColorDepth", ExifSection::NONE),
        THUMBNAIL_PLANES => ("ThumbnailPlanes", ExifSection::NONE),
        THUMBNAIL_RAW_BYTES => ("ThumbnailRawBytes", ExifSection::NONE),
        THUMBNAIL_LENGTH => ("ThumbnailLength", ExifSection::NONE),
        THUMBNAIL_COMPRESSED_SIZE => ("ThumbnailCompressedSize", ExifSection::NONE),
        COLOR_TRANSFER_FUNCTION => ("ColorTransferFunction", ExifSection::NONE),
        THUMBNAIL_DATA => ("ThumbnailData", ExifSection::NONE),
        THUMBNAIL_IMAGE_WIDTH => ("ThumbnailImageWidth", ExifSection::NONE),
        THUMBNAIL_IMAGE_HEIGHT => ("ThumbnailImageHeight", ExifSection::NONE),
        THUMBNAIL_BITS_PER_SAMPLE => ("ThumbnailBitsPerSample", ExifSection::NONE),
        THUMBNAIL_COMPRESSION => ("ThumbnailCompression", ExifSection::NONE),
        THUMBNAIL_PHOTOMETRIC_INTERP => ("ThumbnailPhotometricInterp", ExifSection::NONE),
        THUMBNAIL_DESCRIPTION => ("ThumbnailDescription", ExifSection::NONE),
        THUMBNAIL_EQUIP_MAKE => ("ThumbnailEquipMake", ExifSection::NONE),
        THUMBNAIL_EQUIP_MODEL => ("ThumbnailEquipModel", ExifSection::NONE),
        THUMBNAIL_STRIP_OFFSETS => ("ThumbnailStripOffsets", ExifSection::NONE),
        THUMBNAIL_ORIENTATION => ("ThumbnailOrientation", ExifSection::NONE),
        THUMBNAIL_SAMPLES_PER_PIXEL => ("ThumbnailSamplesPerPixel", ExifSection::NONE),
        THUMBNAIL_ROWS_PER_STRIP => ("ThumbnailRowsPerStrip", ExifSection::NONE),
        THUMBNAIL_STRIP_BYTE_COUNTS => ("ThumbnailStripByteCounts", ExifSection::NONE),
        THUMBNAIL_RESOLUTION_X => ("ThumbnailResolutionX", ExifSection::NONE),
        THUMBNAIL_RESOLUTION_Y => ("ThumbnailResolutionY", ExifSection::NONE),
        THUMBNAIL_PLANAR_CONFIG => ("ThumbnailPlanarConfig", ExifSection::NONE),
        THUMBNAIL_RESOLUTION_UNIT => ("ThumbnailResolutionUnit", ExifSection::NONE),
        THUMBNAIL_TRANSFER_FUNCTION => ("ThumbnailTransferFunction", ExifSection::NONE),
        THUMBNAIL_SOFTWARE => ("ThumbnailSoftware", ExifSection::NONE),
        THUMBNAIL_DATE_TIME => ("ThumbnailDateTime", ExifSection::NONE),
        THUMBNAIL_ARTIST => ("ThumbnailArtist", ExifSection::NONE),
        THUMBNAIL_WHITE_POINT => ("ThumbnailWhitePoint", ExifSection::NONE),
        THUMBNAIL_PRIMARY_CHROMATICITIES => ("ThumbnailPrimaryChromaticities", ExifSection::NONE),
        THUMBNAIL_YCB_CR_COEFFICIENTS => ("ThumbnailYCbCrCoefficients", ExifSection::NONE),
        THUMBNAIL_YCB_CR_SUBSAMPLING => ("ThumbnailYCbCrSubsampling", ExifSection::NONE),
        THUMBNAIL_YCB_CR_POSITIONING => ("ThumbnailYCbCrPositioning", ExifSection::NONE),
        THUMBNAIL_REF_BLACK_WHITE => ("ThumbnailRefBlackWhite", ExifSection::NONE),
        THUMBNAIL_COPYRIGHT => ("ThumbnailCopyright", ExifSection::NONE),
        LUMINANCE_TABLE => ("LuminanceTable", ExifSection::NONE),
        CHROMINANCE_TABLE => ("ChrominanceTable", ExifSection::NONE),
        FRAME_DELAY => ("FrameDelay", ExifSection::NONE),
        LOOP_COUNT => ("LoopCount", ExifSection::NONE),
        GLOBAL_PALETTE => ("GlobalPalette", ExifSection::NONE),
        INDEX_BACKGROUND => ("IndexBackground", ExifSection::NONE),
        INDEX_TRANSPARENT => ("IndexTransparent", ExifSection::NONE),
        PIXEL_UNITS => ("PixelUnits", ExifSection::NONE),
        PIXELS_PER_UNIT_X => ("PixelsPerUnitX", ExifSection::NONE),
        PIXELS_PER_UNIT_Y => ("PixelsPerUnitY", ExifSection::NONE),
        PALETTE_HISTOGRAM => ("PaletteHistogram", ExifSection::NONE),
        SONY_RAW_FILE_TYPE => ("SonyRawFileType", ExifSection::NONE),
        SONY_TONE_CURVE => ("SonyToneCurve", ExifSection::NONE),
        VIGNETTING_CORRECTION => ("VignettingCorrection", ExifSection::SubIFD),
        VIGNETTING_CORR_PARAMS => ("VignettingCorrParams", ExifSection::SubIFD),
        CHROMATIC_ABERRATION_CORRECTION => ("ChromaticAberrationCorrection", ExifSection::SubIFD),
        CHROMATIC_ABERRATION_CORR_PARAMS => ("ChromaticAberrationCorrParams", ExifSection::SubIFD),
        DISTORTION_CORRECTION => ("DistortionCorrection", ExifSection::SubIFD),
        DISTORTION_CORR_PARAMS => ("DistortionCorrParams", ExifSection::SubIFD),
        SONY_RAW_IMAGE_SIZE => ("SonyRawImageSize", ExifSection::SubIFD),
        BLACK_LEVEL => ("BlackLevel", ExifSection::SubIFD),
        WB_RGGBLEVELS => ("WB_RGGBLevels", ExifSection::SubIFD),
        SONY_CROP_TOP_LEFT => ("SonyCropTopLeft", ExifSection::SubIFD),
        SONY_CROP_SIZE => ("SonyCropSize", ExifSection::SubIFD),
        IMAGE_ID => ("ImageID", ExifSection::NONE),
        WANG_TAG1 => ("WangTag1", ExifSection::NONE),
        WANG_ANNOTATION => ("WangAnnotation", ExifSection::NONE),
        WANG_TAG3 => ("WangTag3", ExifSection::NONE),
        WANG_TAG4 => ("WangTag4", ExifSection::NONE),
        IMAGE_REFERENCE_POINTS => ("ImageReferencePoints", ExifSection::NONE),
        REGION_XFORM_TACK_POINT => ("RegionXformTackPoint", ExifSection::NONE),
        WARP_QUADRILATERAL => ("WarpQuadrilateral", ExifSection::NONE),
        AFFINE_TRANSFORM_MAT => ("AffineTransformMat", ExifSection::NONE),
        MATTEING => ("Matteing", ExifSection::NONE),
        DATA_TYPE => ("DataType", ExifSection::NONE),
        IMAGE_DEPTH => ("ImageDepth", ExifSection::NONE),
        TILE_DEPTH => ("TileDepth", ExifSection::NONE),
        IMAGE_FULL_WIDTH => ("ImageFullWidth", ExifSection::NONE),
        IMAGE_FULL_HEIGHT => ("ImageFullHeight", ExifSection::NONE),
        TEXTURE_FORMAT => ("TextureFormat", ExifSection::NONE),
        WRAP_MODES => ("WrapModes", ExifSection::NONE),
        FOV_COT => ("FovCot", ExifSection::NONE),
        MATRIX_WORLD_TO_SCREEN => ("MatrixWorldToScreen", ExifSection::NONE),
        MATRIX_WORLD_TO_CAMERA => ("MatrixWorldToCamera", ExifSection::NONE),
        MODEL2 => ("Model2", ExifSection::NONE),
        CFAREPEAT_PATTERN_DIM => ("CFARepeatPatternDim", ExifSection::SubIFD),
        CFAPATTERN2 => ("CFAPattern2", ExifSection::SubIFD),
        BATTERY_LEVEL => ("BatteryLevel", ExifSection::NONE),
        KODAK_IFD => ("KodakIFD", ExifSection::NONE),
        COPYRIGHT => ("Copyright", ExifSection::IFD0),
        EXPOSURE_TIME => ("ExposureTime", ExifSection::ExifIFD),
        FNUMBER => ("FNumber", ExifSection::ExifIFD),
        MDFILE_TAG => ("MDFileTag", ExifSection::NONE),
        MDSCALE_PIXEL => ("MDScalePixel", ExifSection::NONE),
        MDCOLOR_TABLE => ("MDColorTable", ExifSection::NONE),
        MDLAB_NAME => ("MDLabName", ExifSection::NONE),
        MDSAMPLE_INFO => ("MDSampleInfo", ExifSection::NONE),
        MDPREP_DATE => ("MDPrepDate", ExifSection::NONE),
        MDPREP_TIME => ("MDPrepTime", ExifSection::NONE),
        MDFILE_UNITS => ("MDFileUnits", ExifSection::NONE),
        PIXEL_SCALE => ("PixelScale", ExifSection::IFD0),
        ADVENT_SCALE => ("AdventScale", ExifSection::NONE),
        ADVENT_REVISION => ("AdventRevision", ExifSection::NONE),
        UIC1TAG => ("UIC1Tag", ExifSection::NONE),
        UIC2TAG => ("UIC2Tag", ExifSection::NONE),
        UIC3TAG => ("UIC3Tag", ExifSection::NONE),
        UIC4TAG => ("UIC4Tag", ExifSection::NONE),
        IPTC_NAA => ("IPTC-NAA", ExifSection::IFD0),
        INTERGRAPH_PACKET_DATA => ("IntergraphPacketData", ExifSection::NONE),
        INTERGRAPH_FLAG_REGISTERS => ("IntergraphFlagRegisters", ExifSection::NONE),
        INTERGRAPH_MATRIX => ("IntergraphMatrix", ExifSection::IFD0),
        INGRRESERVED => ("INGRReserved", ExifSection::NONE),
        MODEL_TIE_POINT => ("ModelTiePoint", ExifSection::IFD0),
        SITE => ("Site", ExifSection::NONE),
        COLOR_SEQUENCE => ("ColorSequence", ExifSection::NONE),
        IT8HEADER => ("IT8Header", ExifSection::NONE),
        RASTER_PADDING => ("RasterPadding", ExifSection::NONE),
        BITS_PER_RUN_LENGTH => ("BitsPerRunLength", ExifSection::NONE),
        BITS_PER_EXTENDED_RUN_LENGTH => ("BitsPerExtendedRunLength", ExifSection::NONE),
        COLOR_TABLE => ("ColorTable", ExifSection::NONE),
        IMAGE_COLOR_INDICATOR => ("ImageColorIndicator", ExifSection::NONE),
        BACKGROUND_COLOR_INDICATOR => ("BackgroundColorIndicator", ExifSection::NONE),
        IMAGE_COLOR_VALUE => ("ImageColorValue", ExifSection::NONE),
        BACKGROUND_COLOR_VALUE => ("BackgroundColorValue", ExifSection::NONE),
        PIXEL_INTENSITY_RANGE => ("PixelIntensityRange", ExifSection::NONE),
        TRANSPARENCY_INDICATOR => ("TransparencyIndicator", ExifSection::NONE),
        COLOR_CHARACTERIZATION => ("ColorCharacterization", ExifSection::NONE),
        HCUSAGE => ("HCUsage", ExifSection::NONE),
        TRAP_INDICATOR => ("TrapIndicator", ExifSection::NONE),
        CMYKEQUIVALENT => ("CMYKEquivalent", ExifSection::NONE),
        SEMINFO => ("SEMInfo", ExifSection::IFD0),
        AFCP_IPTC => ("AFCP_IPTC", ExifSection::NONE),
        PIXEL_MAGIC_JBIGOPTIONS => ("PixelMagicJBIGOptions", ExifSection::NONE),
        JPLCARTO_IFD => ("JPLCartoIFD", ExifSection::NONE),
        MODEL_TRANSFORM => ("ModelTransform", ExifSection::IFD0),
        WB_GRGBLEVELS => ("WB_GRGBLevels", ExifSection::NONE),
        LEAF_DATA => ("LeafData", ExifSection::NONE),
        PHOTOSHOP_SETTINGS => ("PhotoshopSettings", ExifSection::IFD0),
        EXIF_OFFSET => ("ExifOffset", ExifSection::IFD0),
        ICC_PROFILE => ("ICC_Profile", ExifSection::IFD0),
        TIFF_FXEXTENSIONS => ("TIFF_FXExtensions", ExifSection::NONE),
        MULTI_PROFILES => ("MultiProfiles", ExifSection::NONE),
        SHARED_DATA => ("SharedData", ExifSection::NONE),
        T88OPTIONS => ("T88Options", ExifSection::NONE),
        IMAGE_LAYER => ("ImageLayer", ExifSection::NONE),
        GEO_TIFF_DIRECTORY => ("GeoTiffDirectory", ExifSection::IFD0),
        GEO_TIFF_DOUBLE_PARAMS => ("GeoTiffDoubleParams", ExifSection::IFD0),
        GEO_TIFF_ASCII_PARAMS => ("GeoTiffAsciiParams", ExifSection::IFD0),
        JBIGOPTIONS => ("JBIGOptions", ExifSection::NONE),
        EXPOSURE_PROGRAM => ("ExposureProgram", ExifSection::ExifIFD),
        SPECTRAL_SENSITIVITY => ("SpectralSensitivity", ExifSection::ExifIFD),
        GPSINFO => ("GPSInfo", ExifSection::IFD0),
        ISO => ("ISO", ExifSection::ExifIFD),
        OPTO_ELECTRIC_CONV_FACTOR => ("Opto-ElectricConvFactor", ExifSection::NONE),
        INTERLACE => ("Interlace", ExifSection::NONE),
        TIME_ZONE_OFFSET => ("TimeZoneOffset", ExifSection::ExifIFD),
        SELF_TIMER_MODE => ("SelfTimerMode", ExifSection::ExifIFD),
        SENSITIVITY_TYPE => ("SensitivityType", ExifSection::ExifIFD),
        STANDARD_OUTPUT_SENSITIVITY => ("StandardOutputSensitivity", ExifSection::ExifIFD),
        RECOMMENDED_EXPOSURE_INDEX => ("RecommendedExposureIndex", ExifSection::ExifIFD),
        ISOSPEED => ("ISOSpeed", ExifSection::ExifIFD),
        ISOSPEED_LATITUDEYYY => ("ISOSpeedLatitudeyyy", ExifSection::ExifIFD),
        ISOSPEED_LATITUDEZZZ => ("ISOSpeedLatitudezzz", ExifSection::ExifIFD),
        FAX_RECV_PARAMS => ("FaxRecvParams", ExifSection::NONE),
        FAX_SUB_ADDRESS => ("FaxSubAddress", ExifSection::NONE),
        FAX_RECV_TIME => ("FaxRecvTime", ExifSection::NONE),
        FEDEX_EDR => ("FedexEDR", ExifSection::NONE),
        LEAF_SUB_IFD => ("LeafSubIFD", ExifSection::NONE),
        EXIF_VERSION => ("ExifVersion", ExifSection::ExifIFD),
        DATE_TIME_ORIGINAL => ("DateTimeOriginal", ExifSection::ExifIFD),
        CREATE_DATE => ("CreateDate", ExifSection::ExifIFD),
        GOOGLE_PLUS_UPLOAD_CODE => ("GooglePlusUploadCode", ExifSection::ExifIFD),
        OFFSET_TIME => ("OffsetTime", ExifSection::ExifIFD),
        OFFSET_TIME_ORIGINAL => ("OffsetTimeOriginal", ExifSection::ExifIFD),
        OFFSET_TIME_DIGITIZED => ("OffsetTimeDigitized", ExifSection::ExifIFD),
        COMPONENTS_CONFIGURATION => ("ComponentsConfiguration", ExifSection::ExifIFD),
        COMPRESSED_BITS_PER_PIXEL => ("CompressedBitsPerPixel", ExifSection::ExifIFD),
        SHUTTER_SPEED_VALUE => ("ShutterSpeedValue", ExifSection::ExifIFD),
        APERTURE_VALUE => ("ApertureValue", ExifSection::ExifIFD),
        BRIGHTNESS_VALUE => ("BrightnessValue", ExifSection::ExifIFD),
        EXPOSURE_COMPENSATION => ("ExposureCompensation", ExifSection::ExifIFD),
        MAX_APERTURE_VALUE => ("MaxApertureValue", ExifSection::ExifIFD),
        SUBJECT_DISTANCE => ("SubjectDistance", ExifSection::ExifIFD),
        METERING_MODE => ("MeteringMode", ExifSection::ExifIFD),
        LIGHT_SOURCE => ("LightSource", ExifSection::ExifIFD),
        FLASH => ("Flash", ExifSection::ExifIFD),
        FOCAL_LENGTH => ("FocalLength", ExifSection::ExifIFD),
        FLASH_ENERGY => ("FlashEnergy", ExifSection::NONE),
        SPATIAL_FREQUENCY_RESPONSE => ("SpatialFrequencyResponse", ExifSection::NONE),
        NOISE => ("Noise", ExifSection::NONE),
        FOCAL_PLANE_XRESOLUTION => ("FocalPlaneXResolution", ExifSection::NONE),
        FOCAL_PLANE_YRESOLUTION => ("FocalPlaneYResolution", ExifSection::NONE),
        FOCAL_PLANE_RESOLUTION_UNIT => ("FocalPlaneResolutionUnit", ExifSection::NONE),
        IMAGE_NUMBER => ("ImageNumber", ExifSection::ExifIFD),
        SECURITY_CLASSIFICATION => ("SecurityClassification", ExifSection::ExifIFD),
        IMAGE_HISTORY => ("ImageHistory", ExifSection::ExifIFD),
        SUBJECT_AREA => ("SubjectArea", ExifSection::ExifIFD),
        EXPOSURE_INDEX => ("ExposureIndex", ExifSection::NONE),
        TIFF_EPSTANDARD_ID => ("TIFF-EPStandardID", ExifSection::NONE),
        SENSING_METHOD => ("SensingMethod", ExifSection::NONE),
        CIP3DATA_FILE => ("CIP3DataFile", ExifSection::NONE),
        CIP3SHEET => ("CIP3Sheet", ExifSection::NONE),
        CIP3SIDE => ("CIP3Side", ExifSection::NONE),
        STO_NITS => ("StoNits", ExifSection::NONE),
        USER_COMMENT => ("UserComment", ExifSection::ExifIFD),
        SUB_SEC_TIME => ("SubSecTime", ExifSection::ExifIFD),
        SUB_SEC_TIME_ORIGINAL => ("SubSecTimeOriginal", ExifSection::ExifIFD),
        SUB_SEC_TIME_DIGITIZED => ("SubSecTimeDigitized", ExifSection::ExifIFD),
        MSDOCUMENT_TEXT => ("MSDocumentText", ExifSection::NONE),
        MSPROPERTY_SET_STORAGE => ("MSPropertySetStorage", ExifSection::NONE),
        MSDOCUMENT_TEXT_POSITION => ("MSDocumentTextPosition", ExifSection::NONE),
        IMAGE_SOURCE_DATA => ("ImageSourceData", ExifSection::IFD0),
        AMBIENT_TEMPERATURE => ("AmbientTemperature", ExifSection::ExifIFD),
        HUMIDITY => ("Humidity", ExifSection::ExifIFD),
        PRESSURE => ("Pressure", ExifSection::ExifIFD),
        WATER_DEPTH => ("WaterDepth", ExifSection::ExifIFD),
        ACCELERATION => ("Acceleration", ExifSection::ExifIFD),
        CAMERA_ELEVATION_ANGLE => ("CameraElevationAngle", ExifSection::ExifIFD),
        XIAOMI_SETTINGS => ("XiaomiSettings", ExifSection::ExifIFD),
        XIAOMI_MODEL => ("XiaomiModel", ExifSection::ExifIFD),
        XPTITLE => ("XPTitle", ExifSection::IFD0),
        XPCOMMENT => ("XPComment", ExifSection::IFD0),
        XPAUTHOR => ("XPAuthor", ExifSection::IFD0),
        XPKEYWORDS => ("XPKeywords", ExifSection::IFD0),
        XPSUBJECT => ("XPSubject", ExifSection::IFD0),
        FLASHPIX_VERSION => ("FlashpixVersion", ExifSection::ExifIFD),
        COLOR_SPACE => ("ColorSpace", ExifSection::ExifIFD),
        EXIF_IMAGE_WIDTH => ("ExifImageWidth", ExifSection::ExifIFD),
        EXIF_IMAGE_HEIGHT => ("ExifImageHeight", ExifSection::ExifIFD),
        RELATED_SOUND_FILE => ("RelatedSoundFile", ExifSection::ExifIFD),
        INTEROP_OFFSET => ("InteropOffset", ExifSection::NONE),
        SAMSUNG_RAW_POINTERS_OFFSET => ("SamsungRawPointersOffset", ExifSection::NONE),
        SAMSUNG_RAW_POINTERS_LENGTH => ("SamsungRawPointersLength", ExifSection::NONE),
        SAMSUNG_RAW_BYTE_ORDER => ("SamsungRawByteOrder", ExifSection::NONE),
        SAMSUNG_RAW_UNKNOWN => ("SamsungRawUnknown?", ExifSection::NONE),
        SUBJECT_LOCATION => ("SubjectLocation", ExifSection::ExifIFD),
        FILE_SOURCE => ("FileSource", ExifSection::ExifIFD),
        SCENE_TYPE => ("SceneType", ExifSection::ExifIFD),
        CFAPATTERN => ("CFAPattern", ExifSection::ExifIFD),
        CUSTOM_RENDERED => ("CustomRendered", ExifSection::ExifIFD),
        EXPOSURE_MODE => ("ExposureMode", ExifSection::ExifIFD),
        WHITE_BALANCE => ("WhiteBalance", ExifSection::ExifIFD),
        DIGITAL_ZOOM_RATIO => ("DigitalZoomRatio", ExifSection::ExifIFD),
        FOCAL_LENGTH_IN35MM_FORMAT => ("FocalLengthIn35mmFormat", ExifSection::ExifIFD),
        SCENE_CAPTURE_TYPE => ("SceneCaptureType", ExifSection::ExifIFD),
        GAIN_CONTROL => ("GainControl", ExifSection::ExifIFD),
        CONTRAST => ("Contrast", ExifSection::ExifIFD),
        SATURATION => ("Saturation", ExifSection::ExifIFD),
        SHARPNESS => ("Sharpness", ExifSection::ExifIFD),
        DEVICE_SETTING_DESCRIPTION => ("DeviceSettingDescription", ExifSection::NONE),
        SUBJECT_DISTANCE_RANGE => ("SubjectDistanceRange", ExifSection::ExifIFD),
        IMAGE_UNIQUE_ID => ("ImageUniqueID", ExifSection::ExifIFD),
        OWNER_NAME => ("OwnerName", ExifSection::ExifIFD),
        SERIAL_NUMBER => ("SerialNumber", ExifSection::ExifIFD),
        LENS_INFO => ("LensInfo", ExifSection::ExifIFD),
        LENS_MAKE => ("LensMake", ExifSection::ExifIFD),
        LENS_MODEL => ("LensModel", ExifSection::ExifIFD),
        LENS_SERIAL_NUMBER => ("LensSerialNumber", ExifSection::ExifIFD),
        IMAGE_TITLE => ("ImageTitle", ExifSection::ExifIFD),
        PHOTOGRAPHER => ("Photographer", ExifSection::ExifIFD),
        IMAGE_EDITOR => ("ImageEditor", ExifSection::ExifIFD),
        CAMERA_FIRMWARE => ("CameraFirmware", ExifSection::ExifIFD),
        RAWDEVELOPING_SOFTWARE => ("RAWDevelopingSoftware", ExifSection::ExifIFD),
        IMAGE_EDITING_SOFTWARE => ("ImageEditingSoftware", ExifSection::ExifIFD),
        METADATA_EDITING_SOFTWARE => ("MetadataEditingSoftware", ExifSection::ExifIFD),
        COMPOSITE_IMAGE => ("CompositeImage", ExifSection::ExifIFD),
        COMPOSITE_IMAGE_COUNT => ("CompositeImageCount", ExifSection::ExifIFD),
        COMPOSITE_IMAGE_EXPOSURE_TIMES => ("CompositeImageExposureTimes", ExifSection::ExifIFD),
        GDALMETADATA => ("GDALMetadata", ExifSection::IFD0),
        GDALNO_DATA => ("GDALNoData", ExifSection::IFD0),
        GAMMA => ("Gamma", ExifSection::ExifIFD),
        EXPAND_SOFTWARE => ("ExpandSoftware", ExifSection::NONE),
        EXPAND_LENS => ("ExpandLens", ExifSection::NONE),
        EXPAND_FILM => ("ExpandFilm", ExifSection::NONE),
        EXPAND_FILTER_LENS => ("ExpandFilterLens", ExifSection::NONE),
        EXPAND_SCANNER => ("ExpandScanner", ExifSection::NONE),
        EXPAND_FLASH_LAMP => ("ExpandFlashLamp", ExifSection::NONE),
        HASSELBLAD_RAW_IMAGE => ("HasselbladRawImage", ExifSection::NONE),
        PIXEL_FORMAT => ("PixelFormat", ExifSection::NONE),
        TRANSFORMATION => ("Transformation", ExifSection::NONE),
        UNCOMPRESSED => ("Uncompressed", ExifSection::NONE),
        IMAGE_TYPE => ("ImageType", ExifSection::NONE),
        WIDTH_RESOLUTION => ("WidthResolution", ExifSection::NONE),
        HEIGHT_RESOLUTION => ("HeightResolution", ExifSection::NONE),
        IMAGE_OFFSET => ("ImageOffset", ExifSection::NONE),
        IMAGE_BYTE_COUNT => ("ImageByteCount", ExifSection::NONE),
        ALPHA_OFFSET => ("AlphaOffset", ExifSection::NONE),
        ALPHA_BYTE_COUNT => ("AlphaByteCount", ExifSection::NONE),
        IMAGE_DATA_DISCARD => ("ImageDataDiscard", ExifSection::NONE),
        ALPHA_DATA_DISCARD => ("AlphaDataDiscard", ExifSection::NONE),
        OCE_SCANJOB_DESC => ("OceScanjobDesc", ExifSection::NONE),
        OCE_APPLICATION_SELECTOR => ("OceApplicationSelector", ExifSection::NONE),
        OCE_IDNUMBER => ("OceIDNumber", ExifSection::NONE),
        OCE_IMAGE_LOGIC => ("OceImageLogic", ExifSection::NONE),
        ANNOTATIONS => ("Annotations", ExifSection::NONE),
        PRINT_IM => ("PrintIM", ExifSection::IFD0),
        HASSELBLAD_XML => ("HasselbladXML", ExifSection::NONE),
        HASSELBLAD_EXIF => ("HasselbladExif", ExifSection::NONE),
        ORIGINAL_FILE_NAME => ("OriginalFileName", ExifSection::NONE),
        USPTOORIGINAL_CONTENT_TYPE => ("USPTOOriginalContentType", ExifSection::NONE),
        CR2CFAPATTERN => ("CR2CFAPattern", ExifSection::NONE),
        DNGVERSION => ("DNGVersion", ExifSection::IFD0),
        DNGBACKWARD_VERSION => ("DNGBackwardVersion", ExifSection::IFD0),
        UNIQUE_CAMERA_MODEL => ("UniqueCameraModel", ExifSection::IFD0),
        LOCALIZED_CAMERA_MODEL => ("LocalizedCameraModel", ExifSection::IFD0),
        CFAPLANE_COLOR => ("CFAPlaneColor", ExifSection::SubIFD),
        CFALAYOUT => ("CFALayout", ExifSection::SubIFD),
        LINEARIZATION_TABLE => ("LinearizationTable", ExifSection::SubIFD),
        BLACK_LEVEL_REPEAT_DIM => ("BlackLevelRepeatDim", ExifSection::SubIFD),
        BLACK_LEVEL_DELTA_H => ("BlackLevelDeltaH", ExifSection::SubIFD),
        BLACK_LEVEL_DELTA_V => ("BlackLevelDeltaV", ExifSection::SubIFD),
        WHITE_LEVEL => ("WhiteLevel", ExifSection::SubIFD),
        DEFAULT_SCALE => ("DefaultScale", ExifSection::SubIFD),
        DEFAULT_CROP_ORIGIN => ("DefaultCropOrigin", ExifSection::SubIFD),
        DEFAULT_CROP_SIZE => ("DefaultCropSize", ExifSection::SubIFD),
        COLOR_MATRIX1 => ("ColorMatrix1", ExifSection::IFD0),
        COLOR_MATRIX2 => ("ColorMatrix2", ExifSection::IFD0),
        CAMERA_CALIBRATION1 => ("CameraCalibration1", ExifSection::IFD0),
        CAMERA_CALIBRATION2 => ("CameraCalibration2", ExifSection::IFD0),
        REDUCTION_MATRIX1 => ("ReductionMatrix1", ExifSection::IFD0),
        REDUCTION_MATRIX2 => ("ReductionMatrix2", ExifSection::IFD0),
        ANALOG_BALANCE => ("AnalogBalance", ExifSection::IFD0),
        AS_SHOT_NEUTRAL => ("AsShotNeutral", ExifSection::IFD0),
        AS_SHOT_WHITE_XY => ("AsShotWhiteXY", ExifSection::IFD0),
        BASELINE_EXPOSURE => ("BaselineExposure", ExifSection::IFD0),
        BASELINE_NOISE => ("BaselineNoise", ExifSection::IFD0),
        BASELINE_SHARPNESS => ("BaselineSharpness", ExifSection::IFD0),
        BAYER_GREEN_SPLIT => ("BayerGreenSplit", ExifSection::SubIFD),
        LINEAR_RESPONSE_LIMIT => ("LinearResponseLimit", ExifSection::IFD0),
        CAMERA_SERIAL_NUMBER => ("CameraSerialNumber", ExifSection::IFD0),
        DNGLENS_INFO => ("DNGLensInfo", ExifSection::IFD0),
        CHROMA_BLUR_RADIUS => ("ChromaBlurRadius", ExifSection::SubIFD),
        ANTI_ALIAS_STRENGTH => ("AntiAliasStrength", ExifSection::SubIFD),
        SHADOW_SCALE => ("ShadowScale", ExifSection::IFD0),
        MAKER_NOTE_SAFETY => ("MakerNoteSafety", ExifSection::IFD0),
        RAW_IMAGE_SEGMENTATION => ("RawImageSegmentation", ExifSection::NONE),
        CALIBRATION_ILLUMINANT1 => ("CalibrationIlluminant1", ExifSection::IFD0),
        CALIBRATION_ILLUMINANT2 => ("CalibrationIlluminant2", ExifSection::IFD0),
        BEST_QUALITY_SCALE => ("BestQualityScale", ExifSection::SubIFD),
        RAW_DATA_UNIQUE_ID => ("RawDataUniqueID", ExifSection::IFD0),
        ALIAS_LAYER_METADATA => ("AliasLayerMetadata", ExifSection::NONE),
        ORIGINAL_RAW_FILE_NAME => ("OriginalRawFileName", ExifSection::IFD0),
        ORIGINAL_RAW_FILE_DATA => ("OriginalRawFileData", ExifSection::IFD0),
        ACTIVE_AREA => ("ActiveArea", ExifSection::SubIFD),
        MASKED_AREAS => ("MaskedAreas", ExifSection::SubIFD),
        AS_SHOT_ICCPROFILE => ("AsShotICCProfile", ExifSection::IFD0),
        AS_SHOT_PRE_PROFILE_MATRIX => ("AsShotPreProfileMatrix", ExifSection::IFD0),
        CURRENT_ICCPROFILE => ("CurrentICCProfile", ExifSection::IFD0),
        CURRENT_PRE_PROFILE_MATRIX => ("CurrentPreProfileMatrix", ExifSection::IFD0),
        COLORIMETRIC_REFERENCE => ("ColorimetricReference", ExifSection::IFD0),
        SRAW_TYPE => ("SRawType", ExifSection::IFD0),
        PANASONIC_TITLE => ("PanasonicTitle", ExifSection::IFD0),
        PANASONIC_TITLE2 => ("PanasonicTitle2", ExifSection::IFD0),
        CAMERA_CALIBRATION_SIG => ("CameraCalibrationSig", ExifSection::IFD0),
        PROFILE_CALIBRATION_SIG => ("ProfileCalibrationSig", ExifSection::IFD0),
        PROFILE_IFD => ("ProfileIFD", ExifSection::IFD0),
        AS_SHOT_PROFILE_NAME => ("AsShotProfileName", ExifSection::IFD0),
        NOISE_REDUCTION_APPLIED => ("NoiseReductionApplied", ExifSection::SubIFD),
        PROFILE_NAME => ("ProfileName", ExifSection::IFD0),
        PROFILE_HUE_SAT_MAP_DIMS => ("ProfileHueSatMapDims", ExifSection::IFD0),
        PROFILE_HUE_SAT_MAP_DATA1 => ("ProfileHueSatMapData1", ExifSection::IFD0),
        PROFILE_HUE_SAT_MAP_DATA2 => ("ProfileHueSatMapData2", ExifSection::IFD0),
        PROFILE_TONE_CURVE => ("ProfileToneCurve", ExifSection::IFD0),
        PROFILE_EMBED_POLICY => ("ProfileEmbedPolicy", ExifSection::IFD0),
        PROFILE_COPYRIGHT => ("ProfileCopyright", ExifSection::IFD0),
        FORWARD_MATRIX1 => ("ForwardMatrix1", ExifSection::IFD0),
        FORWARD_MATRIX2 => ("ForwardMatrix2", ExifSection::IFD0),
        PREVIEW_APPLICATION_NAME => ("PreviewApplicationName", ExifSection::IFD0),
        PREVIEW_APPLICATION_VERSION => ("PreviewApplicationVersion", ExifSection::IFD0),
        PREVIEW_SETTINGS_NAME => ("PreviewSettingsName", ExifSection::IFD0),
        PREVIEW_SETTINGS_DIGEST => ("PreviewSettingsDigest", ExifSection::IFD0),
        PREVIEW_COLOR_SPACE => ("PreviewColorSpace", ExifSection::IFD0),
        PREVIEW_DATE_TIME => ("PreviewDateTime", ExifSection::IFD0),
        RAW_IMAGE_DIGEST => ("RawImageDigest", ExifSection::IFD0),
        ORIGINAL_RAW_FILE_DIGEST => ("OriginalRawFileDigest", ExifSection::IFD0),
        SUB_TILE_BLOCK_SIZE => ("SubTileBlockSize", ExifSection::NONE),
        ROW_INTERLEAVE_FACTOR => ("RowInterleaveFactor", ExifSection::NONE),
        PROFILE_LOOK_TABLE_DIMS => ("ProfileLookTableDims", ExifSection::IFD0),
        PROFILE_LOOK_TABLE_DATA => ("ProfileLookTableData", ExifSection::IFD0),
        OPCODE_LIST1 => ("OpcodeList1", ExifSection::SubIFD),
        OPCODE_LIST2 => ("OpcodeList2", ExifSection::SubIFD),
        OPCODE_LIST3 => ("OpcodeList3", ExifSection::SubIFD),
        NOISE_PROFILE => ("NoiseProfile", ExifSection::SubIFD),
        TIME_CODES => ("TimeCodes", ExifSection::IFD0),
        FRAME_RATE => ("FrameRate", ExifSection::IFD0),
        TSTOP => ("TStop", ExifSection::IFD0),
        REEL_NAME => ("ReelName", ExifSection::IFD0),
        ORIGINAL_DEFAULT_FINAL_SIZE => ("OriginalDefaultFinalSize", ExifSection::IFD0),
        ORIGINAL_BEST_QUALITY_SIZE => ("OriginalBestQualitySize", ExifSection::IFD0),
        ORIGINAL_DEFAULT_CROP_SIZE => ("OriginalDefaultCropSize", ExifSection::IFD0),
        CAMERA_LABEL => ("CameraLabel", ExifSection::IFD0),
        PROFILE_HUE_SAT_MAP_ENCODING => ("ProfileHueSatMapEncoding", ExifSection::IFD0),
        PROFILE_LOOK_TABLE_ENCODING => ("ProfileLookTableEncoding", ExifSection::IFD0),
        BASELINE_EXPOSURE_OFFSET => ("BaselineExposureOffset", ExifSection::IFD0),
        DEFAULT_BLACK_RENDER => ("DefaultBlackRender", ExifSection::IFD0),
        NEW_RAW_IMAGE_DIGEST => ("NewRawImageDigest", ExifSection::IFD0),
        RAW_TO_PREVIEW_GAIN => ("RawToPreviewGain", ExifSection::IFD0),
        CACHE_VERSION => ("CacheVersion", ExifSection::SubIFD2),
        DEFAULT_USER_CROP => ("DefaultUserCrop", ExifSection::SubIFD),
        NIKON_NEFINFO => ("NikonNEFInfo", ExifSection::NONE),
        ZIFMETADATA => ("ZIFMetadata", ExifSection::NONE),
        ZIFANNOTATIONS => ("ZIFAnnotations", ExifSection::NONE),
        DEPTH_FORMAT => ("DepthFormat", ExifSection::IFD0),
        DEPTH_NEAR => ("DepthNear", ExifSection::IFD0),
        DEPTH_FAR => ("DepthFar", ExifSection::IFD0),
        DEPTH_UNITS => ("DepthUnits", ExifSection::IFD0),
        DEPTH_MEASURE_TYPE => ("DepthMeasureType", ExifSection::IFD0),
        ENHANCE_PARAMS => ("EnhanceParams", ExifSection::IFD0),
        PROFILE_GAIN_TABLE_MAP => ("ProfileGainTableMap", ExifSection::SubIFD),
        SEMANTIC_NAME => ("SemanticName", ExifSection::SubIFD),
        SEMANTIC_INSTANCE_ID => ("SemanticInstanceID", ExifSection::SubIFD),
        CALIBRATION_ILLUMINANT3 => ("CalibrationIlluminant3", ExifSection::IFD0),
        CAMERA_CALIBRATION3 => ("CameraCalibration3", ExifSection::IFD0),
        COLOR_MATRIX3 => ("ColorMatrix3", ExifSection::IFD0),
        FORWARD_MATRIX3 => ("ForwardMatrix3", ExifSection::IFD0),
        ILLUMINANT_DATA1 => ("IlluminantData1", ExifSection::IFD0),
        ILLUMINANT_DATA2 => ("IlluminantData2", ExifSection::IFD0),
        ILLUMINANT_DATA3 => ("IlluminantData3", ExifSection::IFD0),
        MASK_SUB_AREA => ("MaskSubArea", ExifSection::SubIFD),
        PROFILE_HUE_SAT_MAP_DATA3 => ("ProfileHueSatMapData3", ExifSection::IFD0),
        REDUCTION_MATRIX3 => ("ReductionMatrix3", ExifSection::IFD0),
        RGBTABLES => ("RGBTables", ExifSection::IFD0),
        PROFILE_GAIN_TABLE_MAP2 => ("ProfileGainTableMap2", ExifSection::IFD0),
        JUMBF => ("JUMBF", ExifSection::NONE),
        COLUMN_INTERLEAVE_FACTOR => ("ColumnInterleaveFactor", ExifSection::SubIFD),
        IMAGE_SEQUENCE_INFO => ("ImageSequenceInfo", ExifSection::IFD0),
        IMAGE_STATS => ("ImageStats", ExifSection::IFD0),
        PROFILE_DYNAMIC_RANGE => ("ProfileDynamicRange", ExifSection::IFD0),
        PROFILE_GROUP_NAME => ("ProfileGroupName", ExifSection::IFD0),
        JXLDISTANCE => ("JXLDistance", ExifSection::IFD0),
        JXLEFFORT => ("JXLEffort", ExifSection::IFD0),
        JXLDECODE_SPEED => ("JXLDecodeSpeed", ExifSection::IFD0),
        SEAL => ("SEAL", ExifSection::IFD0),
        PADDING => ("Padding", ExifSection::ExifIFD),
        OFFSET_SCHEMA => ("OffsetSchema", ExifSection::ExifIFD),
        LENS => ("Lens", ExifSection::ExifIFD),
        KDC_IFD => ("KDC_IFD", ExifSection::NONE),
        RAW_FILE => ("RawFile", ExifSection::ExifIFD),
        CONVERTER => ("Converter", ExifSection::ExifIFD),
        EXPOSURE => ("Exposure", ExifSection::ExifIFD),
        SHADOWS => ("Shadows", ExifSection::ExifIFD),
        BRIGHTNESS => ("Brightness", ExifSection::ExifIFD),
        SMOOTHNESS => ("Smoothness", ExifSection::ExifIFD),
        MOIRE_FILTER => ("MoireFilter", ExifSection::ExifIFD),
        _ => return None,
    };
    Some(ExifField::new(tag, name, section))
}

} // verus!
