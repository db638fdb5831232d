//! The names that the built-in functions are stored under.

use vstd::prelude::*;

verus! {

/* Conversions */
pub const AT_TEXT: &'static str = "@text";
pub const AT_BOOL: &'static str = "@bool";
pub const AT_NUM: &'static str = "@num";
pub const AT_LIST: &'static str = "@list";
pub const AT_MAP: &'static str = "@map";
pub const AT_VAR: &'static str = "@var";

/* Equality */
pub const STRICT_EQL: &'static str = "===";
pub const STRICT_NEQ: &'static str = "!==";
pub const EQL: &'static str = "==";
pub const NEQ: &'static str = "!=";

/* Comparison */
pub const LTH: &'static str = "<";
pub const LEQ: &'static str = "<=";
pub const GTH: &'static str = ">";
pub const GEQ: &'static str = ">=";
pub const CMP: &'static str = "<=>";

/* Logical */
pub const NOT: &'static str = "!";
pub const AND: &'static str = "and";
pub const OR: &'static str = "or";

/* Bitwise */
pub const B_XOR: &'static str = "^";
pub const B_AND: &'static str = "&";
pub const B_OR: &'static str = "|";
pub const B_LSH: &'static str = "<<";
pub const B_RSH: &'static str = ">>";
pub const B_NOT: &'static str = "~";

/* Mathematical */
pub const ADD: &'static str = "+";
pub const SUB: &'static str = "-";
pub const MUL: &'static str = "*";
pub const DIV: &'static str = "/";
pub const POW: &'static str = "**";
pub const MOD: &'static str = "%";
pub const POS: &'static str = "@+";
pub const NEG: &'static str = "@-";

/* Assignment */
pub const ASSIGN: &'static str = "=";
pub const ARROW_LEFT: &'static str = "<-";
pub const ARROW_RIGHT: &'static str = "->";
pub const ADD_ASSIGN: &'static str = "+=";
pub const SUB_ASSIGN: &'static str = "-=";
pub const MUL_ASSIGN: &'static str = "*=";
pub const DIV_ASSIGN: &'static str = "/=";
pub const MOD_ASSIGN: &'static str = "%=";
pub const POW_ASSIGN: &'static str = "**=";
pub const B_XOR_ASSIGN: &'static str = "^=";
pub const B_AND_ASSIGN: &'static str = "&=";
pub const B_OR_ASSIGN: &'static str = "|=";

/* Misc operators */
pub const COMMA: &'static str = ",";
pub const ENDLINE: &'static str = ";";
pub const CALL: &'static str = "()";

/* Indexing and attributes */
pub const INDEX: &'static str = "[]";
pub const INDEX_ASSIGN: &'static str = "[]=";
pub const INDEX_DELETE: &'static str = "[]~";
pub const INDEX_HAS: &'static str = "[]?";
pub const ATTR_GET: &'static str = ".";
pub const ATTR_SET: &'static str = ".=";
pub const ATTR_DEL: &'static str = ".~";
pub const ATTR_HAS: &'static str = ".?";
pub const COLON_COLON: &'static str = "::";

/* Named attributes */
pub const L_ID: &'static str = "__id__";
pub const L_MAP: &'static str = "__map__";
pub const L_ENV: &'static str = "__env__";
pub const L_CLONE: &'static str = "clone";
pub const L_LEN: &'static str = "len";
pub const L_EVAL: &'static str = "eval";
pub const L_PARENT: &'static str = "parent";
pub const L_PARSER: &'static str = "parser";
pub const L_STACK: &'static str = "stack";
pub const L_POP: &'static str = "pop";
pub const L_PUSH: &'static str = "push";

} // verus!
