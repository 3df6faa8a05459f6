//! The primitive values of the format, each with its grammar.

pub mod aliases;
pub mod arc_ref;
pub mod attrib_ref;
pub mod booleans;
pub mod circle_ref;
pub mod dimension;
pub mod layer;
pub mod line_ref;
pub mod mirror;
pub mod number;
pub mod pad_type;
pub mod rectangle_ref;
pub mod p_integer;
pub mod string;
pub mod text_par;
pub mod x_y_ref;
pub mod util;

pub use number::{is_number, number, spec_number, Number};
pub use p_integer::{
    all_digits, decimal_digits, decimal_value, p_integer, parse_u16, push_decimal, spec_p_integer,
    spec_u16,
};
pub use string::{
    backslash_sequence, check_plain, escaped, is_plain, string_text, is_valid_char, is_valid_char_but_not_backslash_or_quote,
    is_valid_char_but_not_space, is_valid_char_spec, part_name, quoted_string,
    quoted_string_inner_fragment, spec_backslash_sequence, spec_fragment, spec_fragments,
    spec_part_name, spec_quoted_string, spec_string, spec_unquoted_string, string, unquoted_string,
    FragmentView, QuotedStringFragment,
};
pub use booleans::{filled_ref, flag_text, flag_to_string, flip, spec_filled_ref, spec_flag, spec_flip};
pub use dimension::{
    dimension, dimension_text, is_user_unit, spec_dimension, spec_dimension_from_pair,
    spec_user_unit, Dimension,
};
pub use layer::{
    is_numbered_layer, layer, layer_text, spec_layer, spec_layer_family, spec_layer_from_pair,
    spec_layer_named, spec_numbered, Layer,
};
pub use mirror::{mirror, mirror_text, spec_mirror, Mirror};
pub use pad_type::{pad_type, pad_type_text, spec_pad_type, PadType};
pub use x_y_ref::{
    sp_number, sp_x_y_ref, spec_sp_number, spec_sp_x_y_ref, spec_x_y_ref, x_y_ref, x_y_text, XYRef,
    XYRefView,
};
pub use arc_ref::{
    arc_ref, arc_text, spec_arc_ref, spec_circular_arc, spec_radii, ArcRef, ArcRefView,
    CircularArcRef, CircularArcRefView, EllipticalArcRef, EllipticalArcRefView,
};
pub use circle_ref::{circle_ref, circle_text, spec_circle_ref, CircleRef, CircleRefView};
pub use line_ref::{line_ref, line_text, spec_line_ref, LineRef, LineRefView};
pub use rectangle_ref::{
    rectangle_ref, rectangle_text, sp_rectangle_ref, spec_rectangle_ref, spec_sp_rectangle_ref,
    RectangleRef, RectangleRefView,
};
pub use aliases::{
    artwork_name, component_name, drill_size, fid_name, filename, height, pad_name, pin_name,
    probe, rot, shape_name, sig_name, tan, testpad_name, tin, tp_name, track_name, track_width,
    via_name,
};
pub use attrib_ref::{attribute_line, attributes_text, sp_string, spec_sp_string, attrib_ref, attribute_text, spec_attrib_ref, Attribute, AttributeView};
pub use text_par::{sp_layer, sp_mirror, spec_sp_layer, spec_sp_mirror, spec_text_line, text_line, TextView, spec_sp_text_par, spec_text_par, sp_text_par, text_par, text_par_text, TextPar, TextParView};
