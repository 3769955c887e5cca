//! Status codes of the graph engine (`graphStatus`): `GRAPH_SUCCESS` (0)
//! is success, every other value an error.

use vstd::prelude::*;

verus! {

/// Graph engine status code (a C `uint32_t`).
#[allow(non_camel_case_types)]
pub type graphStatus = u32;

pub const GRAPH_SUCCESS: graphStatus = 0;
pub const GRAPH_FAILED: graphStatus = 0xFFFF_FFFF;
pub const GRAPH_NOT_CHANGED: graphStatus = 1343242304;
pub const GRAPH_PARAM_INVALID: graphStatus = 50331649;
pub const GRAPH_NODE_WITHOUT_CONST_INPUT: graphStatus = 50331648;
pub const GRAPH_NODE_NEED_REPASS: graphStatus = 50331647;
pub const GRAPH_INVALID_IR_DEF: graphStatus = 50331646;
pub const OP_WITHOUT_IR_DATATYPE_INFER_RULE: graphStatus = 50331645;
pub const GRAPH_PARAM_OUT_OF_RANGE: graphStatus = 50331644;
pub const GRAPH_MEM_OPERATE_FAILED: graphStatus = 50331539;
pub const GRAPH_NULL_PTR: graphStatus = 50331538;
pub const GRAPH_MEMCPY_FAILED: graphStatus = 50331537;
pub const GRAPH_MEMSET_FAILED: graphStatus = 50331536;
pub const GRAPH_MATH_CAL_FAILED: graphStatus = 50331429;
pub const GRAPH_ADD_OVERFLOW: graphStatus = 50331428;
pub const GRAPH_MUL_OVERFLOW: graphStatus = 50331427;
#[allow(non_upper_case_globals)]
pub const GRAPH_RoundUp_Overflow: graphStatus = 50331426;

} // verus!
