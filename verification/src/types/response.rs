//! The response shapes the backend sends, with their JSON codecs. Each
//! decodable type has a view, a spec-level encoding `*_to_json`, a spec-level
//! decoding `*_from_json`, executable `to_json`/`from_json` proved against
//! them, and a round-trip law: decoding an encoding gives the value back.
use crate::envelope::ClientResponse;
use crate::error::ClientError;
use crate::json::{wf_json, Json, JsonV};
use crate::text::{json_of_text, text_of};
use crate::schema::{
    e_bool, e_i64, e_opt_i64, e_opt_str, e_opt_val, e_str, e_u32, e_val, f_arr, f_bool, f_i64,
    f_opt_i64, f_opt_str, f_opt_val, f_str, f_u32, f_val,
};
use vstd::prelude::*;

verus! {

// ---------------------------------------------------------------------------
// Shared encoders for optional scalars
// ---------------------------------------------------------------------------
/// An optional string encodes as the string or as null.
pub open spec fn opt_str_json(s: Option<Seq<char>>) -> JsonV {
    match s {
        Some(x) => JsonV::Str(x),
        None => JsonV::Null,
    }
}

/// An optional integer encodes as the number or as null.
pub open spec fn opt_i64_json(n: Option<int>) -> JsonV {
    match n {
        Some(x) => JsonV::Int(x),
        None => JsonV::Null,
    }
}

fn opt_str_to_json(s: &Option<String>) -> (r: Json)
    ensures
        r@ == opt_str_json(
            match s {
                Some(x) => Some(x@),
                None => None,
            },
        ),
{
    match s {
        Some(x) => Json::Str(x.clone()),
        None => Json::Null,
    }
}

fn opt_i64_to_json(n: &Option<i64>) -> (r: Json)
    ensures
        r@ == opt_i64_json(
            match n {
                Some(x) => Some(*x as int),
                None => None,
            },
        ),
{
    match n {
        Some(x) => Json::Int(*x),
        None => Json::Null,
    }
}

// ---------------------------------------------------------------------------
// Status: the vendor-level outcome every envelope carries
// ---------------------------------------------------------------------------
/// The vendor status block: callers read `code` to tell vendor-level success
/// from failure; the client itself never interprets it.
#[derive(Debug, PartialEq)]
pub struct Status {
    pub code: i64,
    pub type_field: String,
    pub correlation_id: Option<String>,
    pub message: String,
}

pub struct StatusV {
    pub code: int,
    pub type_field: Seq<char>,
    pub correlation_id: Option<Seq<char>>,
    pub message: Seq<char>,
}

impl View for Status {
    type V = StatusV;

    open spec fn view(&self) -> StatusV {
        StatusV {
            code: self.code as int,
            type_field: self.type_field@,
            correlation_id: match self.correlation_id {
                Some(s) => Some(s@),
                None => None,
            },
            message: self.message@,
        }
    }
}

pub open spec fn status_to_json(v: StatusV) -> JsonV {
    JsonV::Obj(
        seq![
            ("code"@, JsonV::Int(v.code)),
            ("type"@, JsonV::Str(v.type_field)),
            ("correlationID"@, opt_str_json(v.correlation_id)),
            ("message"@, JsonV::Str(v.message)),
        ],
    )
}

pub open spec fn status_from_json(j: JsonV) -> Option<StatusV> {
    match j {
        JsonV::Obj(fs) => match (f_i64(fs, "code"@), f_str(fs, "type"@), f_opt_str(
            fs,
            "correlationID"@,
        ), f_str(fs, "message"@)) {
            (Some(code), Some(tf), Some(cid), Some(msg)) => Some(
                StatusV { code, type_field: tf, correlation_id: cid, message: msg },
            ),
            _ => None,
        },
        _ => None,
    }
}

impl Status {
    pub fn to_json(&self) -> (r: Json)
        ensures
            r@ == status_to_json(self@),
    {
        let mut fs: Vec<(String, Json)> = Vec::new();
        fs.push(("code".to_owned(), Json::Int(self.code)));
        fs.push(("type".to_owned(), Json::Str(self.type_field.clone())));
        fs.push(("correlationID".to_owned(), opt_str_to_json(&self.correlation_id)));
        fs.push(("message".to_owned(), Json::Str(self.message.clone())));
        let r = Json::Obj(fs);
        proof {
            reveal_with_fuel(crate::json::json_view, 2);
            assert(r@ matches JsonV::Obj(x));
            assert(r@->Obj_0[0] == ("code"@, JsonV::Int(self.code as int)));
            assert(r@->Obj_0[1] == ("type"@, JsonV::Str(self.type_field@)));
            assert(r@->Obj_0[2] == ("correlationID"@, opt_str_json(self@.correlation_id)));
            assert(r@->Obj_0[3] == ("message"@, JsonV::Str(self.message@)));
            assert(r@->Obj_0 =~= status_to_json(self@)->Obj_0);
            assert(r@ == status_to_json(self@));
        }
        r
    }

    pub fn from_json(j: &Json) -> (r: Option<Status>)
        ensures
            match r {
                Some(v) => status_from_json(j@) == Some(v@),
                None => status_from_json(j@) is None,
            },
    {
        match j {
            Json::Obj(_) => {},
            _ => {
                return None;
            },
        }
        let code = match e_i64(j, "code") {
            Some(v) => v,
            None => {
                return None;
            },
        };
        let type_field = match e_str(j, "type") {
            Some(v) => v,
            None => {
                return None;
            },
        };
        let correlation_id = match e_opt_str(j, "correlationID") {
            Some(v) => v,
            None => {
                return None;
            },
        };
        let message = match e_str(j, "message") {
            Some(v) => v,
            None => {
                return None;
            },
        };
        Some(Status { code, type_field, correlation_id, message })
    }
}

/// Decoding an encoded status gives the status back.
pub proof fn lemma_status_round_trip(v: StatusV)
    ensures
        status_from_json(status_to_json(v)) == Some(v),
{
    reveal_strlit("code");
    reveal_strlit("type");
    reveal_strlit("correlationID");
    reveal_strlit("message");
    reveal_with_fuel(crate::json::obj_lookup, 6);
    assert("code"@ != "type"@) by { assert("code"@[0] != "type"@[0]); }
    assert("code"@ != "correlationID"@) by { assert("code"@.len() != "correlationID"@.len()); }
    assert("type"@ != "correlationID"@) by { assert("type"@.len() != "correlationID"@.len()); }
    assert("code"@ != "message"@) by { assert("code"@.len() != "message"@.len()); }
    assert("type"@ != "message"@) by { assert("type"@.len() != "message"@.len()); }
    assert("correlationID"@ != "message"@) by { assert("correlationID"@.len() != "message"@.len()); }
    let j = status_to_json(v);
    let fs = j->Obj_0;
    assert(fs.drop_first() =~= fs.subrange(1, 4));
    assert(f_i64(fs, "code"@) == Some(v.code));
    assert(f_str(fs, "type"@) == Some(v.type_field));
    assert(f_opt_str(fs, "correlationID"@) == Some(v.correlation_id));
    assert(f_str(fs, "message"@) == Some(v.message));
}


// ---------------------------------------------------------------------------
// Lists of strings and of carried-through JSON values
// ---------------------------------------------------------------------------
/// The views of a vector of JSON trees.
pub open spec fn json_seq_view(v: Vec<Json>) -> Seq<JsonV> {
    Seq::new(
        v@.len(),
        |i: int|
            if 0 <= i < v@.len() {
                v@[i]@
            } else {
                JsonV::Null
            },
    )
}

/// The views of a vector of strings.
pub open spec fn str_seq_view(v: Vec<String>) -> Seq<Seq<char>> {
    Seq::new(
        v@.len(),
        |i: int|
            if 0 <= i < v@.len() {
                v@[i]@
            } else {
                Seq::empty()
            },
    )
}

/// Strings encode elementwise as JSON strings.
pub open spec fn str_list_json(s: Seq<Seq<char>>) -> Seq<JsonV> {
    Seq::new(s.len(), |i: int| JsonV::Str(s[i]))
}

/// A JSON array decodes as strings only if every element is a string.
pub open spec fn str_list_from(items: Seq<JsonV>) -> Option<Seq<Seq<char>>>
    decreases items.len(),
{
    if items.len() == 0 {
        Some(Seq::empty())
    } else {
        match items[0] {
            JsonV::Str(s) => match str_list_from(items.drop_first()) {
                Some(rest) => Some(seq![s] + rest),
                None => None,
            },
            _ => None,
        }
    }
}

fn jsonvec_to_json(v: &Vec<Json>) -> (r: Json)
    ensures
        r@ == JsonV::Arr(json_seq_view(*v)),
{
    let mut out: Vec<Json> = Vec::new();
    let mut i: usize = 0;
    while i < v.len()
        invariant
            i <= v@.len(),
            out@.len() == i,
            forall|k: int| 0 <= k < i ==> (#[trigger] out@[k])@ == v@[k]@,
        decreases v@.len() - i,
    {
        let item = v[i].deep_clone();
        out.push(item);
        i = i + 1;
    }
    let r = Json::Arr(out);
    proof {
        assert(r@->Arr_0 =~= json_seq_view(*v));
    }
    r
}

fn strvec_to_json(v: &Vec<String>) -> (r: Json)
    ensures
        r@ == JsonV::Arr(str_list_json(str_seq_view(*v))),
{
    let mut out: Vec<Json> = Vec::new();
    let mut i: usize = 0;
    while i < v.len()
        invariant
            i <= v@.len(),
            out@.len() == i,
            forall|k: int| 0 <= k < i ==> (#[trigger] out@[k])@ == JsonV::Str(v@[k]@),
        decreases v@.len() - i,
    {
        out.push(Json::Str(v[i].clone()));
        i = i + 1;
    }
    let r = Json::Arr(out);
    proof {
        assert(r@->Arr_0 =~= str_list_json(str_seq_view(*v)));
    }
    r
}

/// Reads a required array-of-strings field.
#[verifier::loop_isolation(false)]
fn e_strvec(j: &Json, key: &str) -> (r: Option<Vec<String>>)
    ensures
        j@ matches JsonV::Obj(fs) ==> (match r {
            Some(out) => (match f_arr(fs, key@) {
                Some(items) => str_list_from(items) == Some(str_seq_view(out)),
                None => false,
            }),
            None => (match f_arr(fs, key@) {
                Some(items) => str_list_from(items) is None,
                None => true,
            }),
        }),
{
    let arr = match j.get(key) {
        Some(x) => match x {
            Json::Arr(items) => {
                proof {
                    assert(*x matches Json::Arr(a) && a@ == items@);
                    assert(x@->Arr_0 =~= json_seq_view(*items));
                    assert(x@ == JsonV::Arr(json_seq_view(*items)));
                }
                items
            },
            _ => {
                proof {
                    assert(!(x@ is Arr));
                }
                return None;
            },
        },
        None => {
            return None;
        },
    };
    let ghost av = json_seq_view(*arr);
    proof {
        assert(j@ matches JsonV::Obj(fs) ==> f_arr(fs, key@) == Some(av));
    }
    let mut out: Vec<String> = Vec::new();
    let mut i: usize = 0;
    proof {
        assert(av.skip(0) =~= av);
        match str_list_from(av) {
            Some(rest) => {
                assert(str_seq_view(out) + rest =~= rest);
            },
            None => {},
        }
    }
    while i < arr.len()
        invariant
            i <= arr@.len(),
            av == json_seq_view(*arr),
            str_seq_view(out).len() == i,
            match str_list_from(av.skip(i as int)) {
                Some(rest) => str_list_from(av) == Some(str_seq_view(out) + rest),
                None => str_list_from(av) is None,
            },
        decreases arr@.len() - i,
    {
        proof {
            assert(av.skip(i as int)[0] == av[i as int]);
            assert(av[i as int] == arr@[i as int]@);
            assert(av.skip(i as int).drop_first() =~= av.skip(i + 1));
        }
        let ghost prev = str_seq_view(out);
        match &arr[i] {
            Json::Str(s) => {
                out.push(s.clone());
                proof {
                    assert(str_seq_view(out) =~= prev.push(out@[i as int]@));
                    match str_list_from(av.skip(i + 1)) {
                        Some(rest) => {
                            assert(str_seq_view(out) + rest =~= prev + (seq![out@[i as int]@]
                                + rest));
                        },
                        None => {},
                    }
                }
                i = i + 1;
            },
            _ => {
                proof {
                    assert(!(arr@[i as int]@ is Str));
                    assert(str_list_from(av.skip(i as int)) is None);
                }
                return None;
            },
        }
    }
    proof {
        assert(av.skip(i as int) =~= Seq::<JsonV>::empty());
        assert(str_seq_view(out) + Seq::<Seq<char>>::empty() =~= str_seq_view(out));
    }
    Some(out)
}

/// Decoding an encoded string list gives the list back.
pub proof fn lemma_str_list_round_trip(s: Seq<Seq<char>>)
    ensures
        str_list_from(str_list_json(s)) == Some(s),
    decreases s.len(),
{
    let js = str_list_json(s);
    if s.len() == 0 {
    } else {
        assert(js[0] == JsonV::Str(s[0]));
        assert(js.drop_first() =~= str_list_json(s.drop_first()));
        lemma_str_list_round_trip(s.drop_first());
        assert(seq![s[0]] + s.drop_first() =~= s);
    }
}

/// Punch-card progress on an offer.
#[derive(Debug, PartialEq)]
pub struct PunchInfo {
    pub total_punch: i64,
    pub current_punch: i64,
}

pub struct PunchInfoV {
    pub total_punch: int,
    pub current_punch: int,
}

impl View for PunchInfo {
    type V = PunchInfoV;

    open spec fn view(&self) -> PunchInfoV {
        PunchInfoV {
            total_punch: self.total_punch as int,
            current_punch: self.current_punch as int,
        }
    }
}

pub open spec fn punch_info_to_json(v: PunchInfoV) -> JsonV {
    JsonV::Obj(
        seq![
            ("totalPunch"@, JsonV::Int(v.total_punch)),
            ("currentPunch"@, JsonV::Int(v.current_punch)),
        ],
    )
}

pub open spec fn punch_info_from_json(j: JsonV) -> Option<PunchInfoV> {
    match j {
        JsonV::Obj(fs) => match (
            f_i64(fs, "totalPunch"@),
            f_i64(fs, "currentPunch"@),
        ) {
            (Some(total_punch), Some(current_punch)) => Some(
                PunchInfoV { total_punch, current_punch },
            ),
            _ => None,
        },
        _ => None,
    }
}

impl PunchInfo {
    pub fn to_json(&self) -> (r: Json)
        ensures
            r@ == punch_info_to_json(self@),
    {
        let mut fs: Vec<(String, Json)> = Vec::new();
        fs.push(("totalPunch".to_owned(), Json::Int(self.total_punch)));
        fs.push(("currentPunch".to_owned(), Json::Int(self.current_punch)));
        let r = Json::Obj(fs);
        proof {
            reveal_with_fuel(crate::json::json_view, 2);
            assert(r@ matches JsonV::Obj(x));
            assert(r@->Obj_0[0] == ("totalPunch"@, JsonV::Int(self@.total_punch)));
            assert(r@->Obj_0[1] == ("currentPunch"@, JsonV::Int(self@.current_punch)));
            assert(r@->Obj_0 =~= punch_info_to_json(self@)->Obj_0);
            assert(r@ == punch_info_to_json(self@));
        }
        r
    }

    pub fn from_json(j: &Json) -> (r: Option<PunchInfo>)
        ensures
            match r {
                Some(v) => punch_info_from_json(j@) == Some(v@),
                None => punch_info_from_json(j@) is None,
            },
    {
        match j {
            Json::Obj(_) => {},
            _ => {
                return None;
            },
        }
        let total_punch = match e_i64(j, "totalPunch") {
            Some(v) => v,
            None => {
                return None;
            },
        };
        let current_punch = match e_i64(j, "currentPunch") {
            Some(v) => v,
            None => {
                return None;
            },
        };
        Some(PunchInfo { total_punch, current_punch })
    }
}

/// Decoding an encoded value gives the value back.
pub proof fn lemma_punch_info_round_trip(v: PunchInfoV)
    ensures
        punch_info_from_json(punch_info_to_json(v)) == Some(v),
{
    reveal_strlit("totalPunch");
    reveal_strlit("currentPunch");
    reveal_with_fuel(crate::json::obj_lookup, 4);
    assert("totalPunch"@ != "currentPunch"@) by { assert("totalPunch"@.len() != "currentPunch"@.len()); }
    let j = punch_info_to_json(v);
    let fs = j->Obj_0;
    assert(f_i64(fs, "totalPunch"@) == Some(v.total_punch));
    assert(f_i64(fs, "currentPunch"@) == Some(v.current_punch));
}

/// Recurring-redemption limits, every one optional.
#[derive(Debug, PartialEq)]
pub struct RecurringInfo {
    pub total_redemption_quantity: Option<i64>,
    pub current_day_redemption_quantity: Option<i64>,
    pub current_week_redemption_quantity: Option<i64>,
    pub current_month_redemption_quantity: Option<i64>,
    pub max_redemption_quantity: Option<i64>,
    pub max_redemption_quantity_per_day: Option<i64>,
    pub max_redemption_quantity_per_week: Option<i64>,
    pub max_redemption_quantity_per_month: Option<i64>,
}

pub struct RecurringInfoV {
    pub total_redemption_quantity: Option<int>,
    pub current_day_redemption_quantity: Option<int>,
    pub current_week_redemption_quantity: Option<int>,
    pub current_month_redemption_quantity: Option<int>,
    pub max_redemption_quantity: Option<int>,
    pub max_redemption_quantity_per_day: Option<int>,
    pub max_redemption_quantity_per_week: Option<int>,
    pub max_redemption_quantity_per_month: Option<int>,
}

impl View for RecurringInfo {
    type V = RecurringInfoV;

    open spec fn view(&self) -> RecurringInfoV {
        RecurringInfoV {
            total_redemption_quantity: (match self.total_redemption_quantity { Some(v) => Some(v as int), None => None }),
            current_day_redemption_quantity: (match self.current_day_redemption_quantity { Some(v) => Some(v as int), None => None }),
            current_week_redemption_quantity: (match self.current_week_redemption_quantity { Some(v) => Some(v as int), None => None }),
            current_month_redemption_quantity: (match self.current_month_redemption_quantity { Some(v) => Some(v as int), None => None }),
            max_redemption_quantity: (match self.max_redemption_quantity { Some(v) => Some(v as int), None => None }),
            max_redemption_quantity_per_day: (match self.max_redemption_quantity_per_day { Some(v) => Some(v as int), None => None }),
            max_redemption_quantity_per_week: (match self.max_redemption_quantity_per_week { Some(v) => Some(v as int), None => None }),
            max_redemption_quantity_per_month: (match self.max_redemption_quantity_per_month { Some(v) => Some(v as int), None => None }),
        }
    }
}

pub open spec fn recurring_info_to_json(v: RecurringInfoV) -> JsonV {
    JsonV::Obj(
        seq![
            ("totalRedemptionQuantity"@, opt_i64_json(v.total_redemption_quantity)),
            ("currentDayRedemptionQuantity"@, opt_i64_json(v.current_day_redemption_quantity)),
            ("currentWeekRedemptionQuantity"@, opt_i64_json(v.current_week_redemption_quantity)),
            ("currentMonthRedemptionQuantity"@, opt_i64_json(v.current_month_redemption_quantity)),
            ("maxRedemptionQuantity"@, opt_i64_json(v.max_redemption_quantity)),
            ("maxRedemptionQuantityPerDay"@, opt_i64_json(v.max_redemption_quantity_per_day)),
            ("maxRedemptionQuantityPerWeek"@, opt_i64_json(v.max_redemption_quantity_per_week)),
            ("maxRedemptionQuantityPerMonth"@, opt_i64_json(v.max_redemption_quantity_per_month)),
        ],
    )
}

pub open spec fn recurring_info_from_json(j: JsonV) -> Option<RecurringInfoV> {
    match j {
        JsonV::Obj(fs) => match (
            f_opt_i64(fs, "totalRedemptionQuantity"@),
            f_opt_i64(fs, "currentDayRedemptionQuantity"@),
            f_opt_i64(fs, "currentWeekRedemptionQuantity"@),
            f_opt_i64(fs, "currentMonthRedemptionQuantity"@),
            f_opt_i64(fs, "maxRedemptionQuantity"@),
            f_opt_i64(fs, "maxRedemptionQuantityPerDay"@),
            f_opt_i64(fs, "maxRedemptionQuantityPerWeek"@),
            f_opt_i64(fs, "maxRedemptionQuantityPerMonth"@),
        ) {
            (Some(total_redemption_quantity), Some(current_day_redemption_quantity), Some(current_week_redemption_quantity), Some(current_month_redemption_quantity), Some(max_redemption_quantity), Some(max_redemption_quantity_per_day), Some(max_redemption_quantity_per_week), Some(max_redemption_quantity_per_month)) => Some(
                RecurringInfoV { total_redemption_quantity, current_day_redemption_quantity, current_week_redemption_quantity, current_month_redemption_quantity, max_redemption_quantity, max_redemption_quantity_per_day, max_redemption_quantity_per_week, max_redemption_quantity_per_month },
            ),
            _ => None,
        },
        _ => None,
    }
}

impl RecurringInfo {
    pub fn to_json(&self) -> (r: Json)
        ensures
            r@ == recurring_info_to_json(self@),
    {
        let mut fs: Vec<(String, Json)> = Vec::new();
        fs.push(("totalRedemptionQuantity".to_owned(), opt_i64_to_json(&self.total_redemption_quantity)));
        fs.push(("currentDayRedemptionQuantity".to_owned(), opt_i64_to_json(&self.current_day_redemption_quantity)));
        fs.push(("currentWeekRedemptionQuantity".to_owned(), opt_i64_to_json(&self.current_week_redemption_quantity)));
        fs.push(("currentMonthRedemptionQuantity".to_owned(), opt_i64_to_json(&self.current_month_redemption_quantity)));
        fs.push(("maxRedemptionQuantity".to_owned(), opt_i64_to_json(&self.max_redemption_quantity)));
        fs.push(("maxRedemptionQuantityPerDay".to_owned(), opt_i64_to_json(&self.max_redemption_quantity_per_day)));
        fs.push(("maxRedemptionQuantityPerWeek".to_owned(), opt_i64_to_json(&self.max_redemption_quantity_per_week)));
        fs.push(("maxRedemptionQuantityPerMonth".to_owned(), opt_i64_to_json(&self.max_redemption_quantity_per_month)));
        let r = Json::Obj(fs);
        proof {
            reveal_with_fuel(crate::json::json_view, 2);
            assert(r@ matches JsonV::Obj(x));
            assert(r@->Obj_0[0] == ("totalRedemptionQuantity"@, opt_i64_json(self@.total_redemption_quantity)));
            assert(r@->Obj_0[1] == ("currentDayRedemptionQuantity"@, opt_i64_json(self@.current_day_redemption_quantity)));
            assert(r@->Obj_0[2] == ("currentWeekRedemptionQuantity"@, opt_i64_json(self@.current_week_redemption_quantity)));
            assert(r@->Obj_0[3] == ("currentMonthRedemptionQuantity"@, opt_i64_json(self@.current_month_redemption_quantity)));
            assert(r@->Obj_0[4] == ("maxRedemptionQuantity"@, opt_i64_json(self@.max_redemption_quantity)));
            assert(r@->Obj_0[5] == ("maxRedemptionQuantityPerDay"@, opt_i64_json(self@.max_redemption_quantity_per_day)));
            assert(r@->Obj_0[6] == ("maxRedemptionQuantityPerWeek"@, opt_i64_json(self@.max_redemption_quantity_per_week)));
            assert(r@->Obj_0[7] == ("maxRedemptionQuantityPerMonth"@, opt_i64_json(self@.max_redemption_quantity_per_month)));
            assert(r@->Obj_0 =~= recurring_info_to_json(self@)->Obj_0);
            assert(r@ == recurring_info_to_json(self@));
        }
        r
    }

    pub fn from_json(j: &Json) -> (r: Option<RecurringInfo>)
        ensures
            match r {
                Some(v) => recurring_info_from_json(j@) == Some(v@),
                None => recurring_info_from_json(j@) is None,
            },
    {
        match j {
            Json::Obj(_) => {},
            _ => {
                return None;
            },
        }
        let total_redemption_quantity = match e_opt_i64(j, "totalRedemptionQuantity") {
            Some(v) => v,
            None => {
                return None;
            },
        };
        let current_day_redemption_quantity = match e_opt_i64(j, "currentDayRedemptionQuantity") {
            Some(v) => v,
            None => {
                return None;
            },
        };
        let current_week_redemption_quantity = match e_opt_i64(j, "currentWeekRedemptionQuantity") {
            Some(v) => v,
            None => {
                return None;
            },
        };
        let current_month_redemption_quantity = match e_opt_i64(j, "currentMonthRedemptionQuantity") {
            Some(v) => v,
            None => {
                return None;
            },
        };
        let max_redemption_quantity = match e_opt_i64(j, "maxRedemptionQuantity") {
            Some(v) => v,
            None => {
                return None;
            },
        };
        let max_redemption_quantity_per_day = match e_opt_i64(j, "maxRedemptionQuantityPerDay") {
            Some(v) => v,
            None => {
                return None;
            },
        };
        let max_redemption_quantity_per_week = match e_opt_i64(j, "maxRedemptionQuantityPerWeek") {
            Some(v) => v,
            None => {
                return None;
            },
        };
        let max_redemption_quantity_per_month = match e_opt_i64(j, "maxRedemptionQuantityPerMonth") {
            Some(v) => v,
            None => {
                return None;
            },
        };
        Some(RecurringInfo { total_redemption_quantity, current_day_redemption_quantity, current_week_redemption_quantity, current_month_redemption_quantity, max_redemption_quantity, max_redemption_quantity_per_day, max_redemption_quantity_per_week, max_redemption_quantity_per_month })
    }
}

/// Decoding an encoded value gives the value back.
pub proof fn lemma_recurring_info_round_trip(v: RecurringInfoV)
    ensures
        recurring_info_from_json(recurring_info_to_json(v)) == Some(v),
{
    reveal_strlit("totalRedemptionQuantity");
    reveal_strlit("currentDayRedemptionQuantity");
    reveal_strlit("currentWeekRedemptionQuantity");
    reveal_strlit("currentMonthRedemptionQuantity");
    reveal_strlit("maxRedemptionQuantity");
    reveal_strlit("maxRedemptionQuantityPerDay");
    reveal_strlit("maxRedemptionQuantityPerWeek");
    reveal_strlit("maxRedemptionQuantityPerMonth");
    reveal_with_fuel(crate::json::obj_lookup, 10);
    assert("totalRedemptionQuantity"@ != "currentDayRedemptionQuantity"@) by { assert("totalRedemptionQuantity"@.len() != "currentDayRedemptionQuantity"@.len()); }
    assert("totalRedemptionQuantity"@ != "currentWeekRedemptionQuantity"@) by { assert("totalRedemptionQuantity"@.len() != "currentWeekRedemptionQuantity"@.len()); }
    assert("currentDayRedemptionQuantity"@ != "currentWeekRedemptionQuantity"@) by { assert("currentDayRedemptionQuantity"@.len() != "currentWeekRedemptionQuantity"@.len()); }
    assert("totalRedemptionQuantity"@ != "currentMonthRedemptionQuantity"@) by { assert("totalRedemptionQuantity"@.len() != "currentMonthRedemptionQuantity"@.len()); }
    assert("currentDayRedemptionQuantity"@ != "currentMonthRedemptionQuantity"@) by { assert("currentDayRedemptionQuantity"@.len() != "currentMonthRedemptionQuantity"@.len()); }
    assert("currentWeekRedemptionQuantity"@ != "currentMonthRedemptionQuantity"@) by { assert("currentWeekRedemptionQuantity"@.len() != "currentMonthRedemptionQuantity"@.len()); }
    assert("totalRedemptionQuantity"@ != "maxRedemptionQuantity"@) by { assert("totalRedemptionQuantity"@.len() != "maxRedemptionQuantity"@.len()); }
    assert("currentDayRedemptionQuantity"@ != "maxRedemptionQuantity"@) by { assert("currentDayRedemptionQuantity"@.len() != "maxRedemptionQuantity"@.len()); }
    assert("currentWeekRedemptionQuantity"@ != "maxRedemptionQuantity"@) by { assert("currentWeekRedemptionQuantity"@.len() != "maxRedemptionQuantity"@.len()); }
    assert("currentMonthRedemptionQuantity"@ != "maxRedemptionQuantity"@) by { assert("currentMonthRedemptionQuantity"@.len() != "maxRedemptionQuantity"@.len()); }
    assert("totalRedemptionQuantity"@ != "maxRedemptionQuantityPerDay"@) by { assert("totalRedemptionQuantity"@.len() != "maxRedemptionQuantityPerDay"@.len()); }
    assert("currentDayRedemptionQuantity"@ != "maxRedemptionQuantityPerDay"@) by { assert("currentDayRedemptionQuantity"@.len() != "maxRedemptionQuantityPerDay"@.len()); }
    assert("currentWeekRedemptionQuantity"@ != "maxRedemptionQuantityPerDay"@) by { assert("currentWeekRedemptionQuantity"@.len() != "maxRedemptionQuantityPerDay"@.len()); }
    assert("currentMonthRedemptionQuantity"@ != "maxRedemptionQuantityPerDay"@) by { assert("currentMonthRedemptionQuantity"@.len() != "maxRedemptionQuantityPerDay"@.len()); }
    assert("maxRedemptionQuantity"@ != "maxRedemptionQuantityPerDay"@) by { assert("maxRedemptionQuantity"@.len() != "maxRedemptionQuantityPerDay"@.len()); }
    assert("totalRedemptionQuantity"@ != "maxRedemptionQuantityPerWeek"@) by { assert("totalRedemptionQuantity"@.len() != "maxRedemptionQuantityPerWeek"@.len()); }
    assert("currentDayRedemptionQuantity"@ != "maxRedemptionQuantityPerWeek"@) by { assert("currentDayRedemptionQuantity"@[0] != "maxRedemptionQuantityPerWeek"@[0]); }
    assert("currentWeekRedemptionQuantity"@ != "maxRedemptionQuantityPerWeek"@) by { assert("currentWeekRedemptionQuantity"@.len() != "maxRedemptionQuantityPerWeek"@.len()); }
    assert("currentMonthRedemptionQuantity"@ != "maxRedemptionQuantityPerWeek"@) by { assert("currentMonthRedemptionQuantity"@.len() != "maxRedemptionQuantityPerWeek"@.len()); }
    assert("maxRedemptionQuantity"@ != "maxRedemptionQuantityPerWeek"@) by { assert("maxRedemptionQuantity"@.len() != "maxRedemptionQuantityPerWeek"@.len()); }
    assert("maxRedemptionQuantityPerDay"@ != "maxRedemptionQuantityPerWeek"@) by { assert("maxRedemptionQuantityPerDay"@.len() != "maxRedemptionQuantityPerWeek"@.len()); }
    assert("totalRedemptionQuantity"@ != "maxRedemptionQuantityPerMonth"@) by { assert("totalRedemptionQuantity"@.len() != "maxRedemptionQuantityPerMonth"@.len()); }
    assert("currentDayRedemptionQuantity"@ != "maxRedemptionQuantityPerMonth"@) by { assert("currentDayRedemptionQuantity"@.len() != "maxRedemptionQuantityPerMonth"@.len()); }
    assert("currentWeekRedemptionQuantity"@ != "maxRedemptionQuantityPerMonth"@) by { assert("currentWeekRedemptionQuantity"@[0] != "maxRedemptionQuantityPerMonth"@[0]); }
    assert("currentMonthRedemptionQuantity"@ != "maxRedemptionQuantityPerMonth"@) by { assert("currentMonthRedemptionQuantity"@.len() != "maxRedemptionQuantityPerMonth"@.len()); }
    assert("maxRedemptionQuantity"@ != "maxRedemptionQuantityPerMonth"@) by { assert("maxRedemptionQuantity"@.len() != "maxRedemptionQuantityPerMonth"@.len()); }
    assert("maxRedemptionQuantityPerDay"@ != "maxRedemptionQuantityPerMonth"@) by { assert("maxRedemptionQuantityPerDay"@.len() != "maxRedemptionQuantityPerMonth"@.len()); }
    assert("maxRedemptionQuantityPerWeek"@ != "maxRedemptionQuantityPerMonth"@) by { assert("maxRedemptionQuantityPerWeek"@.len() != "maxRedemptionQuantityPerMonth"@.len()); }
    let j = recurring_info_to_json(v);
    let fs = j->Obj_0;
    assert(f_opt_i64(fs, "totalRedemptionQuantity"@) == Some(v.total_redemption_quantity));
    assert(f_opt_i64(fs, "currentDayRedemptionQuantity"@) == Some(v.current_day_redemption_quantity));
    assert(f_opt_i64(fs, "currentWeekRedemptionQuantity"@) == Some(v.current_week_redemption_quantity));
    assert(f_opt_i64(fs, "currentMonthRedemptionQuantity"@) == Some(v.current_month_redemption_quantity));
    assert(f_opt_i64(fs, "maxRedemptionQuantity"@) == Some(v.max_redemption_quantity));
    assert(f_opt_i64(fs, "maxRedemptionQuantityPerDay"@) == Some(v.max_redemption_quantity_per_day));
    assert(f_opt_i64(fs, "maxRedemptionQuantityPerWeek"@) == Some(v.max_redemption_quantity_per_week));
    assert(f_opt_i64(fs, "maxRedemptionQuantityPerMonth"@) == Some(v.max_redemption_quantity_per_month));
}

/// A minimum-sale condition attached to an offer.
#[derive(Debug, PartialEq)]
pub struct SaleAmountCondition {
    pub include_eligible: bool,
    pub minimum: i64,
    pub pre_tax_validation: bool,
    pub include_non_product: bool,
    pub exclude_codes: Option<String>,
    pub include_gift_coupons: bool,
}

pub struct SaleAmountConditionV {
    pub include_eligible: bool,
    pub minimum: int,
    pub pre_tax_validation: bool,
    pub include_non_product: bool,
    pub exclude_codes: Option<Seq<char>>,
    pub include_gift_coupons: bool,
}

impl View for SaleAmountCondition {
    type V = SaleAmountConditionV;

    open spec fn view(&self) -> SaleAmountConditionV {
        SaleAmountConditionV {
            include_eligible: self.include_eligible,
            minimum: self.minimum as int,
            pre_tax_validation: self.pre_tax_validation,
            include_non_product: self.include_non_product,
            exclude_codes: (match self.exclude_codes { Some(s) => Some(s@), None => None }),
            include_gift_coupons: self.include_gift_coupons,
        }
    }
}

pub open spec fn sale_amount_condition_to_json(v: SaleAmountConditionV) -> JsonV {
    JsonV::Obj(
        seq![
            ("includeEligible"@, JsonV::Bool(v.include_eligible)),
            ("minimum"@, JsonV::Int(v.minimum)),
            ("preTaxValidation"@, JsonV::Bool(v.pre_tax_validation)),
            ("includeNonProduct"@, JsonV::Bool(v.include_non_product)),
            ("excludeCodes"@, opt_str_json(v.exclude_codes)),
            ("includeGiftCoupons"@, JsonV::Bool(v.include_gift_coupons)),
        ],
    )
}

pub open spec fn sale_amount_condition_from_json(j: JsonV) -> Option<SaleAmountConditionV> {
    match j {
        JsonV::Obj(fs) => match (
            f_bool(fs, "includeEligible"@),
            f_i64(fs, "minimum"@),
            f_bool(fs, "preTaxValidation"@),
            f_bool(fs, "includeNonProduct"@),
            f_opt_str(fs, "excludeCodes"@),
            f_bool(fs, "includeGiftCoupons"@),
        ) {
            (Some(include_eligible), Some(minimum), Some(pre_tax_validation), Some(include_non_product), Some(exclude_codes), Some(include_gift_coupons)) => Some(
                SaleAmountConditionV { include_eligible, minimum, pre_tax_validation, include_non_product, exclude_codes, include_gift_coupons },
            ),
            _ => None,
        },
        _ => None,
    }
}

impl SaleAmountCondition {
    pub fn to_json(&self) -> (r: Json)
        ensures
            r@ == sale_amount_condition_to_json(self@),
    {
        let mut fs: Vec<(String, Json)> = Vec::new();
        fs.push(("includeEligible".to_owned(), Json::Bool(self.include_eligible)));
        fs.push(("minimum".to_owned(), Json::Int(self.minimum)));
        fs.push(("preTaxValidation".to_owned(), Json::Bool(self.pre_tax_validation)));
        fs.push(("includeNonProduct".to_owned(), Json::Bool(self.include_non_product)));
        fs.push(("excludeCodes".to_owned(), opt_str_to_json(&self.exclude_codes)));
        fs.push(("includeGiftCoupons".to_owned(), Json::Bool(self.include_gift_coupons)));
        let r = Json::Obj(fs);
        proof {
            reveal_with_fuel(crate::json::json_view, 2);
            assert(r@ matches JsonV::Obj(x));
            assert(r@->Obj_0[0] == ("includeEligible"@, JsonV::Bool(self@.include_eligible)));
            assert(r@->Obj_0[1] == ("minimum"@, JsonV::Int(self@.minimum)));
            assert(r@->Obj_0[2] == ("preTaxValidation"@, JsonV::Bool(self@.pre_tax_validation)));
            assert(r@->Obj_0[3] == ("includeNonProduct"@, JsonV::Bool(self@.include_non_product)));
            assert(r@->Obj_0[4] == ("excludeCodes"@, opt_str_json(self@.exclude_codes)));
            assert(r@->Obj_0[5] == ("includeGiftCoupons"@, JsonV::Bool(self@.include_gift_coupons)));
            assert(r@->Obj_0 =~= sale_amount_condition_to_json(self@)->Obj_0);
            assert(r@ == sale_amount_condition_to_json(self@));
        }
        r
    }

    pub fn from_json(j: &Json) -> (r: Option<SaleAmountCondition>)
        ensures
            match r {
                Some(v) => sale_amount_condition_from_json(j@) == Some(v@),
                None => sale_amount_condition_from_json(j@) is None,
            },
    {
        match j {
            Json::Obj(_) => {},
            _ => {
                return None;
            },
        }
        let include_eligible = match e_bool(j, "includeEligible") {
            Some(v) => v,
            None => {
                return None;
            },
        };
        let minimum = match e_i64(j, "minimum") {
            Some(v) => v,
            None => {
                return None;
            },
        };
        let pre_tax_validation = match e_bool(j, "preTaxValidation") {
            Some(v) => v,
            None => {
                return None;
            },
        };
        let include_non_product = match e_bool(j, "includeNonProduct") {
            Some(v) => v,
            None => {
                return None;
            },
        };
        let exclude_codes = match e_opt_str(j, "excludeCodes") {
            Some(v) => v,
            None => {
                return None;
            },
        };
        let include_gift_coupons = match e_bool(j, "includeGiftCoupons") {
            Some(v) => v,
            None => {
                return None;
            },
        };
        Some(SaleAmountCondition { include_eligible, minimum, pre_tax_validation, include_non_product, exclude_codes, include_gift_coupons })
    }
}

/// Decoding an encoded value gives the value back.
pub proof fn lemma_sale_amount_condition_round_trip(v: SaleAmountConditionV)
    ensures
        sale_amount_condition_from_json(sale_amount_condition_to_json(v)) == Some(v),
{
    reveal_strlit("includeEligible");
    reveal_strlit("minimum");
    reveal_strlit("preTaxValidation");
    reveal_strlit("includeNonProduct");
    reveal_strlit("excludeCodes");
    reveal_strlit("includeGiftCoupons");
    reveal_with_fuel(crate::json::obj_lookup, 8);
    assert("includeEligible"@ != "minimum"@) by { assert("includeEligible"@.len() != "minimum"@.len()); }
    assert("includeEligible"@ != "preTaxValidation"@) by { assert("includeEligible"@.len() != "preTaxValidation"@.len()); }
    assert("minimum"@ != "preTaxValidation"@) by { assert("minimum"@.len() != "preTaxValidation"@.len()); }
    assert("includeEligible"@ != "includeNonProduct"@) by { assert("includeEligible"@.len() != "includeNonProduct"@.len()); }
    assert("minimum"@ != "includeNonProduct"@) by { assert("minimum"@.len() != "includeNonProduct"@.len()); }
    assert("preTaxValidation"@ != "includeNonProduct"@) by { assert("preTaxValidation"@.len() != "includeNonProduct"@.len()); }
    assert("includeEligible"@ != "excludeCodes"@) by { assert("includeEligible"@.len() != "excludeCodes"@.len()); }
    assert("minimum"@ != "excludeCodes"@) by { assert("minimum"@.len() != "excludeCodes"@.len()); }
    assert("preTaxValidation"@ != "excludeCodes"@) by { assert("preTaxValidation"@.len() != "excludeCodes"@.len()); }
    assert("includeNonProduct"@ != "excludeCodes"@) by { assert("includeNonProduct"@.len() != "excludeCodes"@.len()); }
    assert("includeEligible"@ != "includeGiftCoupons"@) by { assert("includeEligible"@.len() != "includeGiftCoupons"@.len()); }
    assert("minimum"@ != "includeGiftCoupons"@) by { assert("minimum"@.len() != "includeGiftCoupons"@.len()); }
    assert("preTaxValidation"@ != "includeGiftCoupons"@) by { assert("preTaxValidation"@.len() != "includeGiftCoupons"@.len()); }
    assert("includeNonProduct"@ != "includeGiftCoupons"@) by { assert("includeNonProduct"@.len() != "includeGiftCoupons"@.len()); }
    assert("excludeCodes"@ != "includeGiftCoupons"@) by { assert("excludeCodes"@.len() != "includeGiftCoupons"@.len()); }
    let j = sale_amount_condition_to_json(v);
    let fs = j->Obj_0;
    assert(f_bool(fs, "includeEligible"@) == Some(v.include_eligible));
    assert(f_i64(fs, "minimum"@) == Some(v.minimum));
    assert(f_bool(fs, "preTaxValidation"@) == Some(v.pre_tax_validation));
    assert(f_bool(fs, "includeNonProduct"@) == Some(v.include_non_product));
    assert(f_opt_str(fs, "excludeCodes"@) == Some(v.exclude_codes));
    assert(f_bool(fs, "includeGiftCoupons"@) == Some(v.include_gift_coupons));
}


/// The views of a vector of `SaleAmountCondition` values.
pub open spec fn sale_amount_condition_seq_view(v: Vec<SaleAmountCondition>) -> Seq<SaleAmountConditionV> {
    Seq::new(
        v@.len(),
        |i: int|
            if 0 <= i < v@.len() {
                v@[i]@
            } else {
                arbitrary()
            },
    )
}

pub open spec fn sale_amount_condition_items_json(s: Seq<SaleAmountConditionV>) -> Seq<JsonV> {
    Seq::new(s.len(), |i: int| sale_amount_condition_to_json(s[i]))
}

pub open spec fn sale_amount_condition_items_from(items: Seq<JsonV>) -> Option<Seq<SaleAmountConditionV>>
    decreases items.len(),
{
    if items.len() == 0 {
        Some(Seq::empty())
    } else {
        match sale_amount_condition_from_json(items[0]) {
            Some(v) => match sale_amount_condition_items_from(items.drop_first()) {
                Some(rest) => Some(seq![v] + rest),
                None => None,
            },
            None => None,
        }
    }
}

fn sale_amount_condition_vec_to_json(v: &Vec<SaleAmountCondition>) -> (r: Json)
    ensures
        r@ == JsonV::Arr(sale_amount_condition_items_json(sale_amount_condition_seq_view(*v))),
{
    let ghost sv = sale_amount_condition_seq_view(*v);
    let mut out: Vec<Json> = Vec::new();
    let mut i: usize = 0;
    while i < v.len()
        invariant
            i <= v@.len(),
            sv == sale_amount_condition_seq_view(*v),
            out@.len() == i,
            forall|k: int| 0 <= k < i ==> (#[trigger] out@[k])@ == sale_amount_condition_to_json(sv[k]),
        decreases v@.len() - i,
    {
        let item = v[i].to_json();
        out.push(item);
        i = i + 1;
    }
    let r = Json::Arr(out);
    proof {
        assert(r@->Arr_0 =~= sale_amount_condition_items_json(sv));
    }
    r
}

fn sale_amount_condition_vec_from_json(items: &Vec<Json>) -> (r: Option<Vec<SaleAmountCondition>>)
    ensures
        match r {
            Some(out) => sale_amount_condition_items_from(json_seq_view(*items)) == Some(sale_amount_condition_seq_view(out)),
            None => sale_amount_condition_items_from(json_seq_view(*items)) is None,
        },
{
    let ghost av = json_seq_view(*items);
    let mut out: Vec<SaleAmountCondition> = Vec::new();
    let mut i: usize = 0;
    proof {
        assert(av.skip(0) =~= av);
        match sale_amount_condition_items_from(av) {
            Some(rest) => {
                assert(sale_amount_condition_seq_view(out) + rest =~= rest);
            },
            None => {},
        }
    }
    while i < items.len()
        invariant
            i <= items@.len(),
            av == json_seq_view(*items),
            sale_amount_condition_seq_view(out).len() == i,
            match sale_amount_condition_items_from(av.skip(i as int)) {
                Some(rest) => sale_amount_condition_items_from(av) == Some(sale_amount_condition_seq_view(out) + rest),
                None => sale_amount_condition_items_from(av) is None,
            },
        decreases items@.len() - i,
    {
        proof {
            assert(av.skip(i as int)[0] == av[i as int]);
            assert(av[i as int] == items@[i as int]@);
            assert(av.skip(i as int).drop_first() =~= av.skip(i + 1));
        }
        let ghost prev = sale_amount_condition_seq_view(out);
        match SaleAmountCondition::from_json(&items[i]) {
            Some(v) => {
                out.push(v);
                proof {
                    assert(sale_amount_condition_seq_view(out) =~= prev.push(out@[i as int]@));
                    match sale_amount_condition_items_from(av.skip(i + 1)) {
                        Some(rest) => {
                            assert(sale_amount_condition_seq_view(out) + rest =~= prev + (seq![out@[
                                i as int
                            ]@] + rest));
                        },
                        None => {},
                    }
                }
                i = i + 1;
            },
            None => {
                return None;
            },
        }
    }
    proof {
        assert(av.skip(i as int) =~= Seq::<JsonV>::empty());
        assert(sale_amount_condition_items_from(Seq::<JsonV>::empty()) == Some(Seq::<SaleAmountConditionV>::empty()));
        assert(sale_amount_condition_seq_view(out) + Seq::<SaleAmountConditionV>::empty() =~= sale_amount_condition_seq_view(out));
    }
    Some(out)
}

/// Decoding an encoded list gives the list back.
pub proof fn lemma_sale_amount_condition_items_round_trip(s: Seq<SaleAmountConditionV>)
    ensures
        sale_amount_condition_items_from(sale_amount_condition_items_json(s)) == Some(s),
    decreases s.len(),
{
    let js = sale_amount_condition_items_json(s);
    if s.len() == 0 {
    } else {
        assert(js[0] == sale_amount_condition_to_json(s[0]));
        lemma_sale_amount_condition_round_trip(s[0]);
        assert(js.drop_first() =~= sale_amount_condition_items_json(s.drop_first()));
        lemma_sale_amount_condition_items_round_trip(s.drop_first());
        assert(seq![s[0]] + s.drop_first() =~= s);
    }
}

/// The conditions under which an offer applies.
#[derive(Debug, PartialEq)]
pub struct Conditions {
    pub day_of_week_conditions: Vec<String>,
    pub date_conditions: Vec<Json>,
    pub sale_amount_conditions: Vec<SaleAmountCondition>,
}

pub struct ConditionsV {
    pub day_of_week_conditions: Seq<Seq<char>>,
    pub date_conditions: Seq<JsonV>,
    pub sale_amount_conditions: Seq<SaleAmountConditionV>,
}

impl View for Conditions {
    type V = ConditionsV;

    open spec fn view(&self) -> ConditionsV {
        ConditionsV {
            day_of_week_conditions: str_seq_view(self.day_of_week_conditions),
            date_conditions: json_seq_view(self.date_conditions),
            sale_amount_conditions: sale_amount_condition_seq_view(self.sale_amount_conditions),
        }
    }
}

pub open spec fn conditions_to_json(v: ConditionsV) -> JsonV {
    JsonV::Obj(
        seq![
            ("dayOfWeekConditions"@, JsonV::Arr(str_list_json(v.day_of_week_conditions))),
            ("dateConditions"@, JsonV::Arr(v.date_conditions)),
            ("saleAmountConditions"@, JsonV::Arr(sale_amount_condition_items_json(v.sale_amount_conditions))),
        ],
    )
}

pub open spec fn conditions_from_json(j: JsonV) -> Option<ConditionsV> {
    match j {
        JsonV::Obj(fs) => match (
            (match f_arr(fs, "dayOfWeekConditions"@) { Some(items) => str_list_from(items), None => None }),
            f_arr(fs, "dateConditions"@),
            (match f_arr(fs, "saleAmountConditions"@) { Some(items) => sale_amount_condition_items_from(items), None => None }),
        ) {
            (Some(day_of_week_conditions), Some(date_conditions), Some(sale_amount_conditions)) => Some(
                ConditionsV { day_of_week_conditions, date_conditions, sale_amount_conditions },
            ),
            _ => None,
        },
        _ => None,
    }
}

impl Conditions {
    pub fn to_json(&self) -> (r: Json)
        ensures
            r@ == conditions_to_json(self@),
    {
        let mut fs: Vec<(String, Json)> = Vec::new();
        fs.push(("dayOfWeekConditions".to_owned(), strvec_to_json(&self.day_of_week_conditions)));
        fs.push(("dateConditions".to_owned(), jsonvec_to_json(&self.date_conditions)));
        fs.push(("saleAmountConditions".to_owned(), sale_amount_condition_vec_to_json(&self.sale_amount_conditions)));
        let r = Json::Obj(fs);
        proof {
            reveal_with_fuel(crate::json::json_view, 2);
            assert(r@ matches JsonV::Obj(x));
            assert(r@->Obj_0[0] == ("dayOfWeekConditions"@, JsonV::Arr(str_list_json(self@.day_of_week_conditions))));
            assert(r@->Obj_0[1] == ("dateConditions"@, JsonV::Arr(self@.date_conditions)));
            assert(r@->Obj_0[2] == ("saleAmountConditions"@, JsonV::Arr(sale_amount_condition_items_json(self@.sale_amount_conditions))));
            assert(r@->Obj_0 =~= conditions_to_json(self@)->Obj_0);
            assert(r@ == conditions_to_json(self@));
        }
        r
    }

    pub fn from_json(j: &Json) -> (r: Option<Conditions>)
        ensures
            match r {
                Some(v) => conditions_from_json(j@) == Some(v@),
                None => conditions_from_json(j@) is None,
            },
    {
        match j {
            Json::Obj(_) => {},
            _ => {
                return None;
            },
        }
        let day_of_week_conditions = match e_strvec(j, "dayOfWeekConditions") {
            Some(v) => v,
            None => {
                return None;
            },
        };
        let date_conditions = match e_val(j, "dateConditions") {
            Some(v) => {
                let ghost gv = v@;
                match v {
                    Json::Arr(items) => {
                        proof {
                            assert(gv matches JsonV::Arr(ga));
                            assert(gv->Arr_0 =~= json_seq_view(items));
                            assert(gv == JsonV::Arr(json_seq_view(items)));
                        }
                        items
                    },
                    _ => {
                        proof {
                            assert(!(gv is Arr));
                        }
                        return None;
                    },
                }
            },
            None => {
                return None;
            },
        };
        let sale_amount_conditions = match e_val(j, "saleAmountConditions") {
            Some(v) => {
                let ghost gv = v@;
                match v {
                    Json::Arr(items) => {
                        proof {
                            assert(gv matches JsonV::Arr(ga));
                            assert(gv->Arr_0 =~= json_seq_view(items));
                            assert(gv == JsonV::Arr(json_seq_view(items)));
                        }
                        match sale_amount_condition_vec_from_json(&items) {
                            Some(y) => y,
                            None => {
                                return None;
                            },
                        }
                    },
                    _ => {
                        proof {
                            assert(!(gv is Arr));
                        }
                        return None;
                    },
                }
            },
            None => {
                return None;
            },
        };
        Some(Conditions { day_of_week_conditions, date_conditions, sale_amount_conditions })
    }
}

/// Decoding an encoded value gives the value back.
pub proof fn lemma_conditions_round_trip(v: ConditionsV)
    ensures
        conditions_from_json(conditions_to_json(v)) == Some(v),
{
    reveal_strlit("dayOfWeekConditions");
    reveal_strlit("dateConditions");
    reveal_strlit("saleAmountConditions");
    reveal_with_fuel(crate::json::obj_lookup, 5);
    assert("dayOfWeekConditions"@ != "dateConditions"@) by { assert("dayOfWeekConditions"@.len() != "dateConditions"@.len()); }
    assert("dayOfWeekConditions"@ != "saleAmountConditions"@) by { assert("dayOfWeekConditions"@.len() != "saleAmountConditions"@.len()); }
    assert("dateConditions"@ != "saleAmountConditions"@) by { assert("dateConditions"@.len() != "saleAmountConditions"@.len()); }
    let j = conditions_to_json(v);
    let fs = j->Obj_0;
    assert(f_arr(fs, "dayOfWeekConditions"@) == Some(str_list_json(v.day_of_week_conditions)));
    lemma_str_list_round_trip(v.day_of_week_conditions);
    assert(f_arr(fs, "dateConditions"@) == Some(v.date_conditions));
    assert(f_arr(fs, "saleAmountConditions"@) == Some(sale_amount_condition_items_json(v.sale_amount_conditions)));
    lemma_sale_amount_condition_items_round_trip(v.sale_amount_conditions);
}

/// One redeemable offer, as the offers listing returns it.
#[derive(Debug, PartialEq)]
pub struct Offer {
    pub offer_id: i64,
    pub offer_proposition_id: i64,
    pub offer_type: i64,
    pub local_valid_from: String,
    pub local_valid_to: String,
    pub valid_from_utc: String,
    pub valid_to_utc: String,
    pub name: String,
    pub short_description: String,
    pub long_description: String,
    pub image_base_name: String,
    pub image_base_language: Option<String>,
    pub redemption_mode: i64,
    pub is_archived: bool,
    pub is_slpoffer: bool,
    pub is_locked: bool,
    pub is_redeemed: bool,
    pub offer_bucket: String,
    pub punch_info: PunchInfo,
    pub recurring_info: Option<RecurringInfo>,
    pub conditions: Conditions,
    pub color_coding_info: i64,
    pub isvalid_total_order: bool,
    pub creation_date_utc: String,
    pub extend_to_eod: bool,
    pub is_dynamic_expiration: bool,
    pub daypart_filters: Vec<Json>,
}

pub struct OfferV {
    pub offer_id: int,
    pub offer_proposition_id: int,
    pub offer_type: int,
    pub local_valid_from: Seq<char>,
    pub local_valid_to: Seq<char>,
    pub valid_from_utc: Seq<char>,
    pub valid_to_utc: Seq<char>,
    pub name: Seq<char>,
    pub short_description: Seq<char>,
    pub long_description: Seq<char>,
    pub image_base_name: Seq<char>,
    pub image_base_language: Option<Seq<char>>,
    pub redemption_mode: int,
    pub is_archived: bool,
    pub is_slpoffer: bool,
    pub is_locked: bool,
    pub is_redeemed: bool,
    pub offer_bucket: Seq<char>,
    pub punch_info: PunchInfoV,
    pub recurring_info: Option<RecurringInfoV>,
    pub conditions: ConditionsV,
    pub color_coding_info: int,
    pub isvalid_total_order: bool,
    pub creation_date_utc: Seq<char>,
    pub extend_to_eod: bool,
    pub is_dynamic_expiration: bool,
    pub daypart_filters: Seq<JsonV>,
}

impl View for Offer {
    type V = OfferV;

    open spec fn view(&self) -> OfferV {
        OfferV {
            offer_id: self.offer_id as int,
            offer_proposition_id: self.offer_proposition_id as int,
            offer_type: self.offer_type as int,
            local_valid_from: self.local_valid_from@,
            local_valid_to: self.local_valid_to@,
            valid_from_utc: self.valid_from_utc@,
            valid_to_utc: self.valid_to_utc@,
            name: self.name@,
            short_description: self.short_description@,
            long_description: self.long_description@,
            image_base_name: self.image_base_name@,
            image_base_language: (match self.image_base_language { Some(s) => Some(s@), None => None }),
            redemption_mode: self.redemption_mode as int,
            is_archived: self.is_archived,
            is_slpoffer: self.is_slpoffer,
            is_locked: self.is_locked,
            is_redeemed: self.is_redeemed,
            offer_bucket: self.offer_bucket@,
            punch_info: self.punch_info@,
            recurring_info: (match self.recurring_info { Some(x) => Some(x@), None => None }),
            conditions: self.conditions@,
            color_coding_info: self.color_coding_info as int,
            isvalid_total_order: self.isvalid_total_order,
            creation_date_utc: self.creation_date_utc@,
            extend_to_eod: self.extend_to_eod,
            is_dynamic_expiration: self.is_dynamic_expiration,
            daypart_filters: json_seq_view(self.daypart_filters),
        }
    }
}

pub open spec fn offer_to_json(v: OfferV) -> JsonV {
    JsonV::Obj(
        seq![
            ("offerId"@, JsonV::Int(v.offer_id)),
            ("offerPropositionId"@, JsonV::Int(v.offer_proposition_id)),
            ("offerType"@, JsonV::Int(v.offer_type)),
            ("localValidFrom"@, JsonV::Str(v.local_valid_from)),
            ("localValidTo"@, JsonV::Str(v.local_valid_to)),
            ("validFromUTC"@, JsonV::Str(v.valid_from_utc)),
            ("validToUTC"@, JsonV::Str(v.valid_to_utc)),
            ("name"@, JsonV::Str(v.name)),
            ("shortDescription"@, JsonV::Str(v.short_description)),
            ("longDescription"@, JsonV::Str(v.long_description)),
            ("imageBaseName"@, JsonV::Str(v.image_base_name)),
            ("imageBaseLanguage"@, opt_str_json(v.image_base_language)),
            ("redemptionMode"@, JsonV::Int(v.redemption_mode)),
            ("isArchived"@, JsonV::Bool(v.is_archived)),
            ("isSLPOffer"@, JsonV::Bool(v.is_slpoffer)),
            ("isLocked"@, JsonV::Bool(v.is_locked)),
            ("isRedeemed"@, JsonV::Bool(v.is_redeemed)),
            ("offerBucket"@, JsonV::Str(v.offer_bucket)),
            ("punchInfo"@, punch_info_to_json(v.punch_info)),
            ("recurringInfo"@, (match v.recurring_info { Some(x) => recurring_info_to_json(x), None => JsonV::Null })),
            ("conditions"@, conditions_to_json(v.conditions)),
            ("colorCodingInfo"@, JsonV::Int(v.color_coding_info)),
            ("isvalidTotalOrder"@, JsonV::Bool(v.isvalid_total_order)),
            ("CreationDateUtc"@, JsonV::Str(v.creation_date_utc)),
            ("extendToEOD"@, JsonV::Bool(v.extend_to_eod)),
            ("isDynamicExpiration"@, JsonV::Bool(v.is_dynamic_expiration)),
            ("daypartFilters"@, JsonV::Arr(v.daypart_filters)),
        ],
    )
}

pub open spec fn offer_from_json(j: JsonV) -> Option<OfferV> {
    match j {
        JsonV::Obj(fs) => match (
            f_i64(fs, "offerId"@),
            f_i64(fs, "offerPropositionId"@),
            f_i64(fs, "offerType"@),
            f_str(fs, "localValidFrom"@),
            f_str(fs, "localValidTo"@),
            f_str(fs, "validFromUTC"@),
            f_str(fs, "validToUTC"@),
            f_str(fs, "name"@),
            f_str(fs, "shortDescription"@),
            f_str(fs, "longDescription"@),
            f_str(fs, "imageBaseName"@),
            f_opt_str(fs, "imageBaseLanguage"@),
            f_i64(fs, "redemptionMode"@),
            f_bool(fs, "isArchived"@),
            f_bool(fs, "isSLPOffer"@),
            f_bool(fs, "isLocked"@),
            f_bool(fs, "isRedeemed"@),
            f_str(fs, "offerBucket"@),
            (match f_val(fs, "punchInfo"@) { Some(x) => punch_info_from_json(x), None => None }),
            (match f_opt_val(fs, "recurringInfo"@) { Some(Some(x)) => (match recurring_info_from_json(x) { Some(y) => Some(Some(y)), None => None }), Some(None) => Some(None), None => None }),
            (match f_val(fs, "conditions"@) { Some(x) => conditions_from_json(x), None => None }),
            f_i64(fs, "colorCodingInfo"@),
            f_bool(fs, "isvalidTotalOrder"@),
            f_str(fs, "CreationDateUtc"@),
            f_bool(fs, "extendToEOD"@),
            f_bool(fs, "isDynamicExpiration"@),
            f_arr(fs, "daypartFilters"@),
        ) {
            (Some(offer_id), Some(offer_proposition_id), Some(offer_type), Some(local_valid_from), Some(local_valid_to), Some(valid_from_utc), Some(valid_to_utc), Some(name), Some(short_description), Some(long_description), Some(image_base_name), Some(image_base_language), Some(redemption_mode), Some(is_archived), Some(is_slpoffer), Some(is_locked), Some(is_redeemed), Some(offer_bucket), Some(punch_info), Some(recurring_info), Some(conditions), Some(color_coding_info), Some(isvalid_total_order), Some(creation_date_utc), Some(extend_to_eod), Some(is_dynamic_expiration), Some(daypart_filters)) => Some(
                OfferV { offer_id, offer_proposition_id, offer_type, local_valid_from, local_valid_to, valid_from_utc, valid_to_utc, name, short_description, long_description, image_base_name, image_base_language, redemption_mode, is_archived, is_slpoffer, is_locked, is_redeemed, offer_bucket, punch_info, recurring_info, conditions, color_coding_info, isvalid_total_order, creation_date_utc, extend_to_eod, is_dynamic_expiration, daypart_filters },
            ),
            _ => None,
        },
        _ => None,
    }
}

impl Offer {
    #[verifier::rlimit(100)]
    #[verifier::spinoff_prover]
    pub fn to_json(&self) -> (r: Json)
        ensures
            r@ == offer_to_json(self@),
    {
        let mut fs: Vec<(String, Json)> = Vec::new();
        fs.push(("offerId".to_owned(), Json::Int(self.offer_id)));
        fs.push(("offerPropositionId".to_owned(), Json::Int(self.offer_proposition_id)));
        fs.push(("offerType".to_owned(), Json::Int(self.offer_type)));
        fs.push(("localValidFrom".to_owned(), Json::Str(self.local_valid_from.clone())));
        fs.push(("localValidTo".to_owned(), Json::Str(self.local_valid_to.clone())));
        fs.push(("validFromUTC".to_owned(), Json::Str(self.valid_from_utc.clone())));
        fs.push(("validToUTC".to_owned(), Json::Str(self.valid_to_utc.clone())));
        fs.push(("name".to_owned(), Json::Str(self.name.clone())));
        fs.push(("shortDescription".to_owned(), Json::Str(self.short_description.clone())));
        fs.push(("longDescription".to_owned(), Json::Str(self.long_description.clone())));
        fs.push(("imageBaseName".to_owned(), Json::Str(self.image_base_name.clone())));
        fs.push(("imageBaseLanguage".to_owned(), opt_str_to_json(&self.image_base_language)));
        fs.push(("redemptionMode".to_owned(), Json::Int(self.redemption_mode)));
        fs.push(("isArchived".to_owned(), Json::Bool(self.is_archived)));
        fs.push(("isSLPOffer".to_owned(), Json::Bool(self.is_slpoffer)));
        fs.push(("isLocked".to_owned(), Json::Bool(self.is_locked)));
        fs.push(("isRedeemed".to_owned(), Json::Bool(self.is_redeemed)));
        fs.push(("offerBucket".to_owned(), Json::Str(self.offer_bucket.clone())));
        fs.push(("punchInfo".to_owned(), self.punch_info.to_json()));
        fs.push(("recurringInfo".to_owned(), (match &self.recurring_info { Some(x) => x.to_json(), None => Json::Null })));
        fs.push(("conditions".to_owned(), self.conditions.to_json()));
        fs.push(("colorCodingInfo".to_owned(), Json::Int(self.color_coding_info)));
        fs.push(("isvalidTotalOrder".to_owned(), Json::Bool(self.isvalid_total_order)));
        fs.push(("CreationDateUtc".to_owned(), Json::Str(self.creation_date_utc.clone())));
        fs.push(("extendToEOD".to_owned(), Json::Bool(self.extend_to_eod)));
        fs.push(("isDynamicExpiration".to_owned(), Json::Bool(self.is_dynamic_expiration)));
        fs.push(("daypartFilters".to_owned(), jsonvec_to_json(&self.daypart_filters)));
        let r = Json::Obj(fs);
        proof {
            reveal_with_fuel(crate::json::json_view, 2);
            assert(r@ matches JsonV::Obj(x));
            assert(r@->Obj_0[0] == ("offerId"@, JsonV::Int(self@.offer_id)));
            assert(r@->Obj_0[1] == ("offerPropositionId"@, JsonV::Int(self@.offer_proposition_id)));
            assert(r@->Obj_0[2] == ("offerType"@, JsonV::Int(self@.offer_type)));
            assert(r@->Obj_0[3] == ("localValidFrom"@, JsonV::Str(self@.local_valid_from)));
            assert(r@->Obj_0[4] == ("localValidTo"@, JsonV::Str(self@.local_valid_to)));
            assert(r@->Obj_0[5] == ("validFromUTC"@, JsonV::Str(self@.valid_from_utc)));
            assert(r@->Obj_0[6] == ("validToUTC"@, JsonV::Str(self@.valid_to_utc)));
            assert(r@->Obj_0[7] == ("name"@, JsonV::Str(self@.name)));
            assert(r@->Obj_0[8] == ("shortDescription"@, JsonV::Str(self@.short_description)));
            assert(r@->Obj_0[9] == ("longDescription"@, JsonV::Str(self@.long_description)));
            assert(r@->Obj_0[10] == ("imageBaseName"@, JsonV::Str(self@.image_base_name)));
            assert(r@->Obj_0[11] == ("imageBaseLanguage"@, opt_str_json(self@.image_base_language)));
            assert(r@->Obj_0[12] == ("redemptionMode"@, JsonV::Int(self@.redemption_mode)));
            assert(r@->Obj_0[13] == ("isArchived"@, JsonV::Bool(self@.is_archived)));
            assert(r@->Obj_0[14] == ("isSLPOffer"@, JsonV::Bool(self@.is_slpoffer)));
            assert(r@->Obj_0[15] == ("isLocked"@, JsonV::Bool(self@.is_locked)));
            assert(r@->Obj_0[16] == ("isRedeemed"@, JsonV::Bool(self@.is_redeemed)));
            assert(r@->Obj_0[17] == ("offerBucket"@, JsonV::Str(self@.offer_bucket)));
            assert(r@->Obj_0[18] == ("punchInfo"@, punch_info_to_json(self@.punch_info)));
            assert(r@->Obj_0[19] == ("recurringInfo"@, (match self@.recurring_info { Some(x) => recurring_info_to_json(x), None => JsonV::Null })));
            assert(r@->Obj_0[20] == ("conditions"@, conditions_to_json(self@.conditions)));
            assert(r@->Obj_0[21] == ("colorCodingInfo"@, JsonV::Int(self@.color_coding_info)));
            assert(r@->Obj_0[22] == ("isvalidTotalOrder"@, JsonV::Bool(self@.isvalid_total_order)));
            assert(r@->Obj_0[23] == ("CreationDateUtc"@, JsonV::Str(self@.creation_date_utc)));
            assert(r@->Obj_0[24] == ("extendToEOD"@, JsonV::Bool(self@.extend_to_eod)));
            assert(r@->Obj_0[25] == ("isDynamicExpiration"@, JsonV::Bool(self@.is_dynamic_expiration)));
            assert(r@->Obj_0[26] == ("daypartFilters"@, JsonV::Arr(self@.daypart_filters)));
            assert(r@->Obj_0 =~= offer_to_json(self@)->Obj_0);
            assert(r@ == offer_to_json(self@));
        }
        r
    }

    #[verifier::rlimit(100)]
    #[verifier::spinoff_prover]
    pub fn from_json(j: &Json) -> (r: Option<Offer>)
        ensures
            match r {
                Some(v) => offer_from_json(j@) == Some(v@),
                None => offer_from_json(j@) is None,
            },
    {
        match j {
            Json::Obj(_) => {},
            _ => {
                return None;
            },
        }
        let offer_id = match e_i64(j, "offerId") {
            Some(v) => v,
            None => {
                return None;
            },
        };
        let offer_proposition_id = match e_i64(j, "offerPropositionId") {
            Some(v) => v,
            None => {
                return None;
            },
        };
        let offer_type = match e_i64(j, "offerType") {
            Some(v) => v,
            None => {
                return None;
            },
        };
        let local_valid_from = match e_str(j, "localValidFrom") {
            Some(v) => v,
            None => {
                return None;
            },
        };
        let local_valid_to = match e_str(j, "localValidTo") {
            Some(v) => v,
            None => {
                return None;
            },
        };
        let valid_from_utc = match e_str(j, "validFromUTC") {
            Some(v) => v,
            None => {
                return None;
            },
        };
        let valid_to_utc = match e_str(j, "validToUTC") {
            Some(v) => v,
            None => {
                return None;
            },
        };
        let name = match e_str(j, "name") {
            Some(v) => v,
            None => {
                return None;
            },
        };
        let short_description = match e_str(j, "shortDescription") {
            Some(v) => v,
            None => {
                return None;
            },
        };
        let long_description = match e_str(j, "longDescription") {
            Some(v) => v,
            None => {
                return None;
            },
        };
        let image_base_name = match e_str(j, "imageBaseName") {
            Some(v) => v,
            None => {
                return None;
            },
        };
        let image_base_language = match e_opt_str(j, "imageBaseLanguage") {
            Some(v) => v,
            None => {
                return None;
            },
        };
        let redemption_mode = match e_i64(j, "redemptionMode") {
            Some(v) => v,
            None => {
                return None;
            },
        };
        let is_archived = match e_bool(j, "isArchived") {
            Some(v) => v,
            None => {
                return None;
            },
        };
        let is_slpoffer = match e_bool(j, "isSLPOffer") {
            Some(v) => v,
            None => {
                return None;
            },
        };
        let is_locked = match e_bool(j, "isLocked") {
            Some(v) => v,
            None => {
                return None;
            },
        };
        let is_redeemed = match e_bool(j, "isRedeemed") {
            Some(v) => v,
            None => {
                return None;
            },
        };
        let offer_bucket = match e_str(j, "offerBucket") {
            Some(v) => v,
            None => {
                return None;
            },
        };
        let punch_info = match j.get("punchInfo") {
            Some(x) => match PunchInfo::from_json(x) {
                Some(y) => y,
                None => {
                    return None;
                },
            },
            None => {
                return None;
            },
        };
        let recurring_info = match e_opt_val(j, "recurringInfo") {
            Some(Some(x)) => match RecurringInfo::from_json(x) {
                Some(y) => Some(y),
                None => {
                    return None;
                },
            },
            Some(None) => None,
            None => {
                return None;
            },
        };
        let conditions = match j.get("conditions") {
            Some(x) => match Conditions::from_json(x) {
                Some(y) => y,
                None => {
                    return None;
                },
            },
            None => {
                return None;
            },
        };
        let color_coding_info = match e_i64(j, "colorCodingInfo") {
            Some(v) => v,
            None => {
                return None;
            },
        };
        let isvalid_total_order = match e_bool(j, "isvalidTotalOrder") {
            Some(v) => v,
            None => {
                return None;
            },
        };
        let creation_date_utc = match e_str(j, "CreationDateUtc") {
            Some(v) => v,
            None => {
                return None;
            },
        };
        let extend_to_eod = match e_bool(j, "extendToEOD") {
            Some(v) => v,
            None => {
                return None;
            },
        };
        let is_dynamic_expiration = match e_bool(j, "isDynamicExpiration") {
            Some(v) => v,
            None => {
                return None;
            },
        };
        let daypart_filters = match e_val(j, "daypartFilters") {
            Some(v) => {
                let ghost gv = v@;
                match v {
                    Json::Arr(items) => {
                        proof {
                            assert(gv matches JsonV::Arr(ga));
                            assert(gv->Arr_0 =~= json_seq_view(items));
                            assert(gv == JsonV::Arr(json_seq_view(items)));
                        }
                        items
                    },
                    _ => {
                        proof {
                            assert(!(gv is Arr));
                        }
                        return None;
                    },
                }
            },
            None => {
                return None;
            },
        };
        Some(Offer { offer_id, offer_proposition_id, offer_type, local_valid_from, local_valid_to, valid_from_utc, valid_to_utc, name, short_description, long_description, image_base_name, image_base_language, redemption_mode, is_archived, is_slpoffer, is_locked, is_redeemed, offer_bucket, punch_info, recurring_info, conditions, color_coding_info, isvalid_total_order, creation_date_utc, extend_to_eod, is_dynamic_expiration, daypart_filters })
    }
}

/// Decoding an encoded value gives the value back.
#[verifier::rlimit(100)]
#[verifier::spinoff_prover]
pub proof fn lemma_offer_round_trip(v: OfferV)
    ensures
        offer_from_json(offer_to_json(v)) == Some(v),
{
    reveal_strlit("offerId");
    reveal_strlit("offerPropositionId");
    reveal_strlit("offerType");
    reveal_strlit("localValidFrom");
    reveal_strlit("localValidTo");
    reveal_strlit("validFromUTC");
    reveal_strlit("validToUTC");
    reveal_strlit("name");
    reveal_strlit("shortDescription");
    reveal_strlit("longDescription");
    reveal_strlit("imageBaseName");
    reveal_strlit("imageBaseLanguage");
    reveal_strlit("redemptionMode");
    reveal_strlit("isArchived");
    reveal_strlit("isSLPOffer");
    reveal_strlit("isLocked");
    reveal_strlit("isRedeemed");
    reveal_strlit("offerBucket");
    reveal_strlit("punchInfo");
    reveal_strlit("recurringInfo");
    reveal_strlit("conditions");
    reveal_strlit("colorCodingInfo");
    reveal_strlit("isvalidTotalOrder");
    reveal_strlit("CreationDateUtc");
    reveal_strlit("extendToEOD");
    reveal_strlit("isDynamicExpiration");
    reveal_strlit("daypartFilters");
    reveal_with_fuel(crate::json::obj_lookup, 29);
    assert("offerId"@ != "offerPropositionId"@) by { assert("offerId"@.len() != "offerPropositionId"@.len()); }
    assert("offerId"@ != "offerType"@) by { assert("offerId"@.len() != "offerType"@.len()); }
    assert("offerPropositionId"@ != "offerType"@) by { assert("offerPropositionId"@.len() != "offerType"@.len()); }
    assert("offerId"@ != "localValidFrom"@) by { assert("offerId"@.len() != "localValidFrom"@.len()); }
    assert("offerPropositionId"@ != "localValidFrom"@) by { assert("offerPropositionId"@.len() != "localValidFrom"@.len()); }
    assert("offerType"@ != "localValidFrom"@) by { assert("offerType"@.len() != "localValidFrom"@.len()); }
    assert("offerId"@ != "localValidTo"@) by { assert("offerId"@.len() != "localValidTo"@.len()); }
    assert("offerPropositionId"@ != "localValidTo"@) by { assert("offerPropositionId"@.len() != "localValidTo"@.len()); }
    assert("offerType"@ != "localValidTo"@) by { assert("offerType"@.len() != "localValidTo"@.len()); }
    assert("localValidFrom"@ != "localValidTo"@) by { assert("localValidFrom"@.len() != "localValidTo"@.len()); }
    assert("offerId"@ != "validFromUTC"@) by { assert("offerId"@.len() != "validFromUTC"@.len()); }
    assert("offerPropositionId"@ != "validFromUTC"@) by { assert("offerPropositionId"@.len() != "validFromUTC"@.len()); }
    assert("offerType"@ != "validFromUTC"@) by { assert("offerType"@.len() != "validFromUTC"@.len()); }
    assert("localValidFrom"@ != "validFromUTC"@) by { assert("localValidFrom"@.len() != "validFromUTC"@.len()); }
    assert("localValidTo"@ != "validFromUTC"@) by { assert("localValidTo"@[0] != "validFromUTC"@[0]); }
    assert("offerId"@ != "validToUTC"@) by { assert("offerId"@.len() != "validToUTC"@.len()); }
    assert("offerPropositionId"@ != "validToUTC"@) by { assert("offerPropositionId"@.len() != "validToUTC"@.len()); }
    assert("offerType"@ != "validToUTC"@) by { assert("offerType"@.len() != "validToUTC"@.len()); }
    assert("localValidFrom"@ != "validToUTC"@) by { assert("localValidFrom"@.len() != "validToUTC"@.len()); }
    assert("localValidTo"@ != "validToUTC"@) by { assert("localValidTo"@.len() != "validToUTC"@.len()); }
    assert("validFromUTC"@ != "validToUTC"@) by { assert("validFromUTC"@.len() != "validToUTC"@.len()); }
    assert("offerId"@ != "name"@) by { assert("offerId"@.len() != "name"@.len()); }
    assert("offerPropositionId"@ != "name"@) by { assert("offerPropositionId"@.len() != "name"@.len()); }
    assert("offerType"@ != "name"@) by { assert("offerType"@.len() != "name"@.len()); }
    assert("localValidFrom"@ != "name"@) by { assert("localValidFrom"@.len() != "name"@.len()); }
    assert("localValidTo"@ != "name"@) by { assert("localValidTo"@.len() != "name"@.len()); }
    assert("validFromUTC"@ != "name"@) by { assert("validFromUTC"@.len() != "name"@.len()); }
    assert("validToUTC"@ != "name"@) by { assert("validToUTC"@.len() != "name"@.len()); }
    assert("offerId"@ != "shortDescription"@) by { assert("offerId"@.len() != "shortDescription"@.len()); }
    assert("offerPropositionId"@ != "shortDescription"@) by { assert("offerPropositionId"@.len() != "shortDescription"@.len()); }
    assert("offerType"@ != "shortDescription"@) by { assert("offerType"@.len() != "shortDescription"@.len()); }
    assert("localValidFrom"@ != "shortDescription"@) by { assert("localValidFrom"@.len() != "shortDescription"@.len()); }
    assert("localValidTo"@ != "shortDescription"@) by { assert("localValidTo"@.len() != "shortDescription"@.len()); }
    assert("validFromUTC"@ != "shortDescription"@) by { assert("validFromUTC"@.len() != "shortDescription"@.len()); }
    assert("validToUTC"@ != "shortDescription"@) by { assert("validToUTC"@.len() != "shortDescription"@.len()); }
    assert("name"@ != "shortDescription"@) by { assert("name"@.len() != "shortDescription"@.len()); }
    assert("offerId"@ != "longDescription"@) by { assert("offerId"@.len() != "longDescription"@.len()); }
    assert("offerPropositionId"@ != "longDescription"@) by { assert("offerPropositionId"@.len() != "longDescription"@.len()); }
    assert("offerType"@ != "longDescription"@) by { assert("offerType"@.len() != "longDescription"@.len()); }
    assert("localValidFrom"@ != "longDescription"@) by { assert("localValidFrom"@.len() != "longDescription"@.len()); }
    assert("localValidTo"@ != "longDescription"@) by { assert("localValidTo"@.len() != "longDescription"@.len()); }
    assert("validFromUTC"@ != "longDescription"@) by { assert("validFromUTC"@.len() != "longDescription"@.len()); }
    assert("validToUTC"@ != "longDescription"@) by { assert("validToUTC"@.len() != "longDescription"@.len()); }
    assert("name"@ != "longDescription"@) by { assert("name"@.len() != "longDescription"@.len()); }
    assert("shortDescription"@ != "longDescription"@) by { assert("shortDescription"@.len() != "longDescription"@.len()); }
    assert("offerId"@ != "imageBaseName"@) by { assert("offerId"@.len() != "imageBaseName"@.len()); }
    assert("offerPropositionId"@ != "imageBaseName"@) by { assert("offerPropositionId"@.len() != "imageBaseName"@.len()); }
    assert("offerType"@ != "imageBaseName"@) by { assert("offerType"@.len() != "imageBaseName"@.len()); }
    assert("localValidFrom"@ != "imageBaseName"@) by { assert("localValidFrom"@.len() != "imageBaseName"@.len()); }
    assert("localValidTo"@ != "imageBaseName"@) by { assert("localValidTo"@.len() != "imageBaseName"@.len()); }
    assert("validFromUTC"@ != "imageBaseName"@) by { assert("validFromUTC"@.len() != "imageBaseName"@.len()); }
    assert("validToUTC"@ != "imageBaseName"@) by { assert("validToUTC"@.len() != "imageBaseName"@.len()); }
    assert("name"@ != "imageBaseName"@) by { assert("name"@.len() != "imageBaseName"@.len()); }
    assert("shortDescription"@ != "imageBaseName"@) by { assert("shortDescription"@.len() != "imageBaseName"@.len()); }
    assert("longDescription"@ != "imageBaseName"@) by { assert("longDescription"@.len() != "imageBaseName"@.len()); }
    assert("offerId"@ != "imageBaseLanguage"@) by { assert("offerId"@.len() != "imageBaseLanguage"@.len()); }
    assert("offerPropositionId"@ != "imageBaseLanguage"@) by { assert("offerPropositionId"@.len() != "imageBaseLanguage"@.len()); }
    assert("offerType"@ != "imageBaseLanguage"@) by { assert("offerType"@.len() != "imageBaseLanguage"@.len()); }
    assert("localValidFrom"@ != "imageBaseLanguage"@) by { assert("localValidFrom"@.len() != "imageBaseLanguage"@.len()); }
    assert("localValidTo"@ != "imageBaseLanguage"@) by { assert("localValidTo"@.len() != "imageBaseLanguage"@.len()); }
    assert("validFromUTC"@ != "imageBaseLanguage"@) by { assert("validFromUTC"@.len() != "imageBaseLanguage"@.len()); }
    assert("validToUTC"@ != "imageBaseLanguage"@) by { assert("validToUTC"@.len() != "imageBaseLanguage"@.len()); }
    assert("name"@ != "imageBaseLanguage"@) by { assert("name"@.len() != "imageBaseLanguage"@.len()); }
    assert("shortDescription"@ != "imageBaseLanguage"@) by { assert("shortDescription"@.len() != "imageBaseLanguage"@.len()); }
    assert("longDescription"@ != "imageBaseLanguage"@) by { assert("longDescription"@.len() != "imageBaseLanguage"@.len()); }
    assert("imageBaseName"@ != "imageBaseLanguage"@) by { assert("imageBaseName"@.len() != "imageBaseLanguage"@.len()); }
    assert("offerId"@ != "redemptionMode"@) by { assert("offerId"@.len() != "redemptionMode"@.len()); }
    assert("offerPropositionId"@ != "redemptionMode"@) by { assert("offerPropositionId"@.len() != "redemptionMode"@.len()); }
    assert("offerType"@ != "redemptionMode"@) by { assert("offerType"@.len() != "redemptionMode"@.len()); }
    assert("localValidFrom"@ != "redemptionMode"@) by { assert("localValidFrom"@[0] != "redemptionMode"@[0]); }
    assert("localValidTo"@ != "redemptionMode"@) by { assert("localValidTo"@.len() != "redemptionMode"@.len()); }
    assert("validFromUTC"@ != "redemptionMode"@) by { assert("validFromUTC"@.len() != "redemptionMode"@.len()); }
    assert("validToUTC"@ != "redemptionMode"@) by { assert("validToUTC"@.len() != "redemptionMode"@.len()); }
    assert("name"@ != "redemptionMode"@) by { assert("name"@.len() != "redemptionMode"@.len()); }
    assert("shortDescription"@ != "redemptionMode"@) by { assert("shortDescription"@.len() != "redemptionMode"@.len()); }
    assert("longDescription"@ != "redemptionMode"@) by { assert("longDescription"@.len() != "redemptionMode"@.len()); }
    assert("imageBaseName"@ != "redemptionMode"@) by { assert("imageBaseName"@.len() != "redemptionMode"@.len()); }
    assert("imageBaseLanguage"@ != "redemptionMode"@) by { assert("imageBaseLanguage"@.len() != "redemptionMode"@.len()); }
    assert("offerId"@ != "isArchived"@) by { assert("offerId"@.len() != "isArchived"@.len()); }
    assert("offerPropositionId"@ != "isArchived"@) by { assert("offerPropositionId"@.len() != "isArchived"@.len()); }
    assert("offerType"@ != "isArchived"@) by { assert("offerType"@.len() != "isArchived"@.len()); }
    assert("localValidFrom"@ != "isArchived"@) by { assert("localValidFrom"@.len() != "isArchived"@.len()); }
    assert("localValidTo"@ != "isArchived"@) by { assert("localValidTo"@.len() != "isArchived"@.len()); }
    assert("validFromUTC"@ != "isArchived"@) by { assert("validFromUTC"@.len() != "isArchived"@.len()); }
    assert("validToUTC"@ != "isArchived"@) by { assert("validToUTC"@[0] != "isArchived"@[0]); }
    assert("name"@ != "isArchived"@) by { assert("name"@.len() != "isArchived"@.len()); }
    assert("shortDescription"@ != "isArchived"@) by { assert("shortDescription"@.len() != "isArchived"@.len()); }
    assert("longDescription"@ != "isArchived"@) by { assert("longDescription"@.len() != "isArchived"@.len()); }
    assert("imageBaseName"@ != "isArchived"@) by { assert("imageBaseName"@.len() != "isArchived"@.len()); }
    assert("imageBaseLanguage"@ != "isArchived"@) by { assert("imageBaseLanguage"@.len() != "isArchived"@.len()); }
    assert("redemptionMode"@ != "isArchived"@) by { assert("redemptionMode"@.len() != "isArchived"@.len()); }
    assert("offerId"@ != "isSLPOffer"@) by { assert("offerId"@.len() != "isSLPOffer"@.len()); }
    assert("offerPropositionId"@ != "isSLPOffer"@) by { assert("offerPropositionId"@.len() != "isSLPOffer"@.len()); }
    assert("offerType"@ != "isSLPOffer"@) by { assert("offerType"@.len() != "isSLPOffer"@.len()); }
    assert("localValidFrom"@ != "isSLPOffer"@) by { assert("localValidFrom"@.len() != "isSLPOffer"@.len()); }
    assert("localValidTo"@ != "isSLPOffer"@) by { assert("localValidTo"@.len() != "isSLPOffer"@.len()); }
    assert("validFromUTC"@ != "isSLPOffer"@) by { assert("validFromUTC"@.len() != "isSLPOffer"@.len()); }
    assert("validToUTC"@ != "isSLPOffer"@) by { assert("validToUTC"@[0] != "isSLPOffer"@[0]); }
    assert("name"@ != "isSLPOffer"@) by { assert("name"@.len() != "isSLPOffer"@.len()); }
    assert("shortDescription"@ != "isSLPOffer"@) by { assert("shortDescription"@.len() != "isSLPOffer"@.len()); }
    assert("longDescription"@ != "isSLPOffer"@) by { assert("longDescription"@.len() != "isSLPOffer"@.len()); }
    assert("imageBaseName"@ != "isSLPOffer"@) by { assert("imageBaseName"@.len() != "isSLPOffer"@.len()); }
    assert("imageBaseLanguage"@ != "isSLPOffer"@) by { assert("imageBaseLanguage"@.len() != "isSLPOffer"@.len()); }
    assert("redemptionMode"@ != "isSLPOffer"@) by { assert("redemptionMode"@.len() != "isSLPOffer"@.len()); }
    assert("isArchived"@ != "isSLPOffer"@) by { assert("isArchived"@[2] != "isSLPOffer"@[2]); }
    assert("offerId"@ != "isLocked"@) by { assert("offerId"@.len() != "isLocked"@.len()); }
    assert("offerPropositionId"@ != "isLocked"@) by { assert("offerPropositionId"@.len() != "isLocked"@.len()); }
    assert("offerType"@ != "isLocked"@) by { assert("offerType"@.len() != "isLocked"@.len()); }
    assert("localValidFrom"@ != "isLocked"@) by { assert("localValidFrom"@.len() != "isLocked"@.len()); }
    assert("localValidTo"@ != "isLocked"@) by { assert("localValidTo"@.len() != "isLocked"@.len()); }
    assert("validFromUTC"@ != "isLocked"@) by { assert("validFromUTC"@.len() != "isLocked"@.len()); }
    assert("validToUTC"@ != "isLocked"@) by { assert("validToUTC"@.len() != "isLocked"@.len()); }
    assert("name"@ != "isLocked"@) by { assert("name"@.len() != "isLocked"@.len()); }
    assert("shortDescription"@ != "isLocked"@) by { assert("shortDescription"@.len() != "isLocked"@.len()); }
    assert("longDescription"@ != "isLocked"@) by { assert("longDescription"@.len() != "isLocked"@.len()); }
    assert("imageBaseName"@ != "isLocked"@) by { assert("imageBaseName"@.len() != "isLocked"@.len()); }
    assert("imageBaseLanguage"@ != "isLocked"@) by { assert("imageBaseLanguage"@.len() != "isLocked"@.len()); }
    assert("redemptionMode"@ != "isLocked"@) by { assert("redemptionMode"@.len() != "isLocked"@.len()); }
    assert("isArchived"@ != "isLocked"@) by { assert("isArchived"@.len() != "isLocked"@.len()); }
    assert("isSLPOffer"@ != "isLocked"@) by { assert("isSLPOffer"@.len() != "isLocked"@.len()); }
    assert("offerId"@ != "isRedeemed"@) by { assert("offerId"@.len() != "isRedeemed"@.len()); }
    assert("offerPropositionId"@ != "isRedeemed"@) by { assert("offerPropositionId"@.len() != "isRedeemed"@.len()); }
    assert("offerType"@ != "isRedeemed"@) by { assert("offerType"@.len() != "isRedeemed"@.len()); }
    assert("localValidFrom"@ != "isRedeemed"@) by { assert("localValidFrom"@.len() != "isRedeemed"@.len()); }
    assert("localValidTo"@ != "isRedeemed"@) by { assert("localValidTo"@.len() != "isRedeemed"@.len()); }
    assert("validFromUTC"@ != "isRedeemed"@) by { assert("validFromUTC"@.len() != "isRedeemed"@.len()); }
    assert("validToUTC"@ != "isRedeemed"@) by { assert("validToUTC"@[0] != "isRedeemed"@[0]); }
    assert("name"@ != "isRedeemed"@) by { assert("name"@.len() != "isRedeemed"@.len()); }
    assert("shortDescription"@ != "isRedeemed"@) by { assert("shortDescription"@.len() != "isRedeemed"@.len()); }
    assert("longDescription"@ != "isRedeemed"@) by { assert("longDescription"@.len() != "isRedeemed"@.len()); }
    assert("imageBaseName"@ != "isRedeemed"@) by { assert("imageBaseName"@.len() != "isRedeemed"@.len()); }
    assert("imageBaseLanguage"@ != "isRedeemed"@) by { assert("imageBaseLanguage"@.len() != "isRedeemed"@.len()); }
    assert("redemptionMode"@ != "isRedeemed"@) by { assert("redemptionMode"@.len() != "isRedeemed"@.len()); }
    assert("isArchived"@ != "isRedeemed"@) by { assert("isArchived"@[2] != "isRedeemed"@[2]); }
    assert("isSLPOffer"@ != "isRedeemed"@) by { assert("isSLPOffer"@[2] != "isRedeemed"@[2]); }
    assert("isLocked"@ != "isRedeemed"@) by { assert("isLocked"@.len() != "isRedeemed"@.len()); }
    assert("offerId"@ != "offerBucket"@) by { assert("offerId"@.len() != "offerBucket"@.len()); }
    assert("offerPropositionId"@ != "offerBucket"@) by { assert("offerPropositionId"@.len() != "offerBucket"@.len()); }
    assert("offerType"@ != "offerBucket"@) by { assert("offerType"@.len() != "offerBucket"@.len()); }
    assert("localValidFrom"@ != "offerBucket"@) by { assert("localValidFrom"@.len() != "offerBucket"@.len()); }
    assert("localValidTo"@ != "offerBucket"@) by { assert("localValidTo"@.len() != "offerBucket"@.len()); }
    assert("validFromUTC"@ != "offerBucket"@) by { assert("validFromUTC"@.len() != "offerBucket"@.len()); }
    assert("validToUTC"@ != "offerBucket"@) by { assert("validToUTC"@.len() != "offerBucket"@.len()); }
    assert("name"@ != "offerBucket"@) by { assert("name"@.len() != "offerBucket"@.len()); }
    assert("shortDescription"@ != "offerBucket"@) by { assert("shortDescription"@.len() != "offerBucket"@.len()); }
    assert("longDescription"@ != "offerBucket"@) by { assert("longDescription"@.len() != "offerBucket"@.len()); }
    assert("imageBaseName"@ != "offerBucket"@) by { assert("imageBaseName"@.len() != "offerBucket"@.len()); }
    assert("imageBaseLanguage"@ != "offerBucket"@) by { assert("imageBaseLanguage"@.len() != "offerBucket"@.len()); }
    assert("redemptionMode"@ != "offerBucket"@) by { assert("redemptionMode"@.len() != "offerBucket"@.len()); }
    assert("isArchived"@ != "offerBucket"@) by { assert("isArchived"@.len() != "offerBucket"@.len()); }
    assert("isSLPOffer"@ != "offerBucket"@) by { assert("isSLPOffer"@.len() != "offerBucket"@.len()); }
    assert("isLocked"@ != "offerBucket"@) by { assert("isLocked"@.len() != "offerBucket"@.len()); }
    assert("isRedeemed"@ != "offerBucket"@) by { assert("isRedeemed"@.len() != "offerBucket"@.len()); }
    assert("offerId"@ != "punchInfo"@) by { assert("offerId"@.len() != "punchInfo"@.len()); }
    assert("offerPropositionId"@ != "punchInfo"@) by { assert("offerPropositionId"@.len() != "punchInfo"@.len()); }
    assert("offerType"@ != "punchInfo"@) by { assert("offerType"@[0] != "punchInfo"@[0]); }
    assert("localValidFrom"@ != "punchInfo"@) by { assert("localValidFrom"@.len() != "punchInfo"@.len()); }
    assert("localValidTo"@ != "punchInfo"@) by { assert("localValidTo"@.len() != "punchInfo"@.len()); }
    assert("validFromUTC"@ != "punchInfo"@) by { assert("validFromUTC"@.len() != "punchInfo"@.len()); }
    assert("validToUTC"@ != "punchInfo"@) by { assert("validToUTC"@.len() != "punchInfo"@.len()); }
    assert("name"@ != "punchInfo"@) by { assert("name"@.len() != "punchInfo"@.len()); }
    assert("shortDescription"@ != "punchInfo"@) by { assert("shortDescription"@.len() != "punchInfo"@.len()); }
    assert("longDescription"@ != "punchInfo"@) by { assert("longDescription"@.len() != "punchInfo"@.len()); }
    assert("imageBaseName"@ != "punchInfo"@) by { assert("imageBaseName"@.len() != "punchInfo"@.len()); }
    assert("imageBaseLanguage"@ != "punchInfo"@) by { assert("imageBaseLanguage"@.len() != "punchInfo"@.len()); }
    assert("redemptionMode"@ != "punchInfo"@) by { assert("redemptionMode"@.len() != "punchInfo"@.len()); }
    assert("isArchived"@ != "punchInfo"@) by { assert("isArchived"@.len() != "punchInfo"@.len()); }
    assert("isSLPOffer"@ != "punchInfo"@) by { assert("isSLPOffer"@.len() != "punchInfo"@.len()); }
    assert("isLocked"@ != "punchInfo"@) by { assert("isLocked"@.len() != "punchInfo"@.len()); }
    assert("isRedeemed"@ != "punchInfo"@) by { assert("isRedeemed"@.len() != "punchInfo"@.len()); }
    assert("offerBucket"@ != "punchInfo"@) by { assert("offerBucket"@.len() != "punchInfo"@.len()); }
    assert("offerId"@ != "recurringInfo"@) by { assert("offerId"@.len() != "recurringInfo"@.len()); }
    assert("offerPropositionId"@ != "recurringInfo"@) by { assert("offerPropositionId"@.len() != "recurringInfo"@.len()); }
    assert("offerType"@ != "recurringInfo"@) by { assert("offerType"@.len() != "recurringInfo"@.len()); }
    assert("localValidFrom"@ != "recurringInfo"@) by { assert("localValidFrom"@.len() != "recurringInfo"@.len()); }
    assert("localValidTo"@ != "recurringInfo"@) by { assert("localValidTo"@.len() != "recurringInfo"@.len()); }
    assert("validFromUTC"@ != "recurringInfo"@) by { assert("validFromUTC"@.len() != "recurringInfo"@.len()); }
    assert("validToUTC"@ != "recurringInfo"@) by { assert("validToUTC"@.len() != "recurringInfo"@.len()); }
    assert("name"@ != "recurringInfo"@) by { assert("name"@.len() != "recurringInfo"@.len()); }
    assert("shortDescription"@ != "recurringInfo"@) by { assert("shortDescription"@.len() != "recurringInfo"@.len()); }
    assert("longDescription"@ != "recurringInfo"@) by { assert("longDescription"@.len() != "recurringInfo"@.len()); }
    assert("imageBaseName"@ != "recurringInfo"@) by { assert("imageBaseName"@[0] != "recurringInfo"@[0]); }
    assert("imageBaseLanguage"@ != "recurringInfo"@) by { assert("imageBaseLanguage"@.len() != "recurringInfo"@.len()); }
    assert("redemptionMode"@ != "recurringInfo"@) by { assert("redemptionMode"@.len() != "recurringInfo"@.len()); }
    assert("isArchived"@ != "recurringInfo"@) by { assert("isArchived"@.len() != "recurringInfo"@.len()); }
    assert("isSLPOffer"@ != "recurringInfo"@) by { assert("isSLPOffer"@.len() != "recurringInfo"@.len()); }
    assert("isLocked"@ != "recurringInfo"@) by { assert("isLocked"@.len() != "recurringInfo"@.len()); }
    assert("isRedeemed"@ != "recurringInfo"@) by { assert("isRedeemed"@.len() != "recurringInfo"@.len()); }
    assert("offerBucket"@ != "recurringInfo"@) by { assert("offerBucket"@.len() != "recurringInfo"@.len()); }
    assert("punchInfo"@ != "recurringInfo"@) by { assert("punchInfo"@.len() != "recurringInfo"@.len()); }
    assert("offerId"@ != "conditions"@) by { assert("offerId"@.len() != "conditions"@.len()); }
    assert("offerPropositionId"@ != "conditions"@) by { assert("offerPropositionId"@.len() != "conditions"@.len()); }
    assert("offerType"@ != "conditions"@) by { assert("offerType"@.len() != "conditions"@.len()); }
    assert("localValidFrom"@ != "conditions"@) by { assert("localValidFrom"@.len() != "conditions"@.len()); }
    assert("localValidTo"@ != "conditions"@) by { assert("localValidTo"@.len() != "conditions"@.len()); }
    assert("validFromUTC"@ != "conditions"@) by { assert("validFromUTC"@.len() != "conditions"@.len()); }
    assert("validToUTC"@ != "conditions"@) by { assert("validToUTC"@[0] != "conditions"@[0]); }
    assert("name"@ != "conditions"@) by { assert("name"@.len() != "conditions"@.len()); }
    assert("shortDescription"@ != "conditions"@) by { assert("shortDescription"@.len() != "conditions"@.len()); }
    assert("longDescription"@ != "conditions"@) by { assert("longDescription"@.len() != "conditions"@.len()); }
    assert("imageBaseName"@ != "conditions"@) by { assert("imageBaseName"@.len() != "conditions"@.len()); }
    assert("imageBaseLanguage"@ != "conditions"@) by { assert("imageBaseLanguage"@.len() != "conditions"@.len()); }
    assert("redemptionMode"@ != "conditions"@) by { assert("redemptionMode"@.len() != "conditions"@.len()); }
    assert("isArchived"@ != "conditions"@) by { assert("isArchived"@[0] != "conditions"@[0]); }
    assert("isSLPOffer"@ != "conditions"@) by { assert("isSLPOffer"@[0] != "conditions"@[0]); }
    assert("isLocked"@ != "conditions"@) by { assert("isLocked"@.len() != "conditions"@.len()); }
    assert("isRedeemed"@ != "conditions"@) by { assert("isRedeemed"@[0] != "conditions"@[0]); }
    assert("offerBucket"@ != "conditions"@) by { assert("offerBucket"@.len() != "conditions"@.len()); }
    assert("punchInfo"@ != "conditions"@) by { assert("punchInfo"@.len() != "conditions"@.len()); }
    assert("recurringInfo"@ != "conditions"@) by { assert("recurringInfo"@.len() != "conditions"@.len()); }
    assert("offerId"@ != "colorCodingInfo"@) by { assert("offerId"@.len() != "colorCodingInfo"@.len()); }
    assert("offerPropositionId"@ != "colorCodingInfo"@) by { assert("offerPropositionId"@.len() != "colorCodingInfo"@.len()); }
    assert("offerType"@ != "colorCodingInfo"@) by { assert("offerType"@.len() != "colorCodingInfo"@.len()); }
    assert("localValidFrom"@ != "colorCodingInfo"@) by { assert("localValidFrom"@.len() != "colorCodingInfo"@.len()); }
    assert("localValidTo"@ != "colorCodingInfo"@) by { assert("localValidTo"@.len() != "colorCodingInfo"@.len()); }
    assert("validFromUTC"@ != "colorCodingInfo"@) by { assert("validFromUTC"@.len() != "colorCodingInfo"@.len()); }
    assert("validToUTC"@ != "colorCodingInfo"@) by { assert("validToUTC"@.len() != "colorCodingInfo"@.len()); }
    assert("name"@ != "colorCodingInfo"@) by { assert("name"@.len() != "colorCodingInfo"@.len()); }
    assert("shortDescription"@ != "colorCodingInfo"@) by { assert("shortDescription"@.len() != "colorCodingInfo"@.len()); }
    assert("longDescription"@ != "colorCodingInfo"@) by { assert("longDescription"@[0] != "colorCodingInfo"@[0]); }
    assert("imageBaseName"@ != "colorCodingInfo"@) by { assert("imageBaseName"@.len() != "colorCodingInfo"@.len()); }
    assert("imageBaseLanguage"@ != "colorCodingInfo"@) by { assert("imageBaseLanguage"@.len() != "colorCodingInfo"@.len()); }
    assert("redemptionMode"@ != "colorCodingInfo"@) by { assert("redemptionMode"@.len() != "colorCodingInfo"@.len()); }
    assert("isArchived"@ != "colorCodingInfo"@) by { assert("isArchived"@.len() != "colorCodingInfo"@.len()); }
    assert("isSLPOffer"@ != "colorCodingInfo"@) by { assert("isSLPOffer"@.len() != "colorCodingInfo"@.len()); }
    assert("isLocked"@ != "colorCodingInfo"@) by { assert("isLocked"@.len() != "colorCodingInfo"@.len()); }
    assert("isRedeemed"@ != "colorCodingInfo"@) by { assert("isRedeemed"@.len() != "colorCodingInfo"@.len()); }
    assert("offerBucket"@ != "colorCodingInfo"@) by { assert("offerBucket"@.len() != "colorCodingInfo"@.len()); }
    assert("punchInfo"@ != "colorCodingInfo"@) by { assert("punchInfo"@.len() != "colorCodingInfo"@.len()); }
    assert("recurringInfo"@ != "colorCodingInfo"@) by { assert("recurringInfo"@.len() != "colorCodingInfo"@.len()); }
    assert("conditions"@ != "colorCodingInfo"@) by { assert("conditions"@.len() != "colorCodingInfo"@.len()); }
    assert("offerId"@ != "isvalidTotalOrder"@) by { assert("offerId"@.len() != "isvalidTotalOrder"@.len()); }
    assert("offerPropositionId"@ != "isvalidTotalOrder"@) by { assert("offerPropositionId"@.len() != "isvalidTotalOrder"@.len()); }
    assert("offerType"@ != "isvalidTotalOrder"@) by { assert("offerType"@.len() != "isvalidTotalOrder"@.len()); }
    assert("localValidFrom"@ != "isvalidTotalOrder"@) by { assert("localValidFrom"@.len() != "isvalidTotalOrder"@.len()); }
    assert("localValidTo"@ != "isvalidTotalOrder"@) by { assert("localValidTo"@.len() != "isvalidTotalOrder"@.len()); }
    assert("validFromUTC"@ != "isvalidTotalOrder"@) by { assert("validFromUTC"@.len() != "isvalidTotalOrder"@.len()); }
    assert("validToUTC"@ != "isvalidTotalOrder"@) by { assert("validToUTC"@.len() != "isvalidTotalOrder"@.len()); }
    assert("name"@ != "isvalidTotalOrder"@) by { assert("name"@.len() != "isvalidTotalOrder"@.len()); }
    assert("shortDescription"@ != "isvalidTotalOrder"@) by { assert("shortDescription"@.len() != "isvalidTotalOrder"@.len()); }
    assert("longDescription"@ != "isvalidTotalOrder"@) by { assert("longDescription"@.len() != "isvalidTotalOrder"@.len()); }
    assert("imageBaseName"@ != "isvalidTotalOrder"@) by { assert("imageBaseName"@.len() != "isvalidTotalOrder"@.len()); }
    assert("imageBaseLanguage"@ != "isvalidTotalOrder"@) by { assert("imageBaseLanguage"@[1] != "isvalidTotalOrder"@[1]); }
    assert("redemptionMode"@ != "isvalidTotalOrder"@) by { assert("redemptionMode"@.len() != "isvalidTotalOrder"@.len()); }
    assert("isArchived"@ != "isvalidTotalOrder"@) by { assert("isArchived"@.len() != "isvalidTotalOrder"@.len()); }
    assert("isSLPOffer"@ != "isvalidTotalOrder"@) by { assert("isSLPOffer"@.len() != "isvalidTotalOrder"@.len()); }
    assert("isLocked"@ != "isvalidTotalOrder"@) by { assert("isLocked"@.len() != "isvalidTotalOrder"@.len()); }
    assert("isRedeemed"@ != "isvalidTotalOrder"@) by { assert("isRedeemed"@.len() != "isvalidTotalOrder"@.len()); }
    assert("offerBucket"@ != "isvalidTotalOrder"@) by { assert("offerBucket"@.len() != "isvalidTotalOrder"@.len()); }
    assert("punchInfo"@ != "isvalidTotalOrder"@) by { assert("punchInfo"@.len() != "isvalidTotalOrder"@.len()); }
    assert("recurringInfo"@ != "isvalidTotalOrder"@) by { assert("recurringInfo"@.len() != "isvalidTotalOrder"@.len()); }
    assert("conditions"@ != "isvalidTotalOrder"@) by { assert("conditions"@.len() != "isvalidTotalOrder"@.len()); }
    assert("colorCodingInfo"@ != "isvalidTotalOrder"@) by { assert("colorCodingInfo"@.len() != "isvalidTotalOrder"@.len()); }
    assert("offerId"@ != "CreationDateUtc"@) by { assert("offerId"@.len() != "CreationDateUtc"@.len()); }
    assert("offerPropositionId"@ != "CreationDateUtc"@) by { assert("offerPropositionId"@.len() != "CreationDateUtc"@.len()); }
    assert("offerType"@ != "CreationDateUtc"@) by { assert("offerType"@.len() != "CreationDateUtc"@.len()); }
    assert("localValidFrom"@ != "CreationDateUtc"@) by { assert("localValidFrom"@.len() != "CreationDateUtc"@.len()); }
    assert("localValidTo"@ != "CreationDateUtc"@) by { assert("localValidTo"@.len() != "CreationDateUtc"@.len()); }
    assert("validFromUTC"@ != "CreationDateUtc"@) by { assert("validFromUTC"@.len() != "CreationDateUtc"@.len()); }
    assert("validToUTC"@ != "CreationDateUtc"@) by { assert("validToUTC"@.len() != "CreationDateUtc"@.len()); }
    assert("name"@ != "CreationDateUtc"@) by { assert("name"@.len() != "CreationDateUtc"@.len()); }
    assert("shortDescription"@ != "CreationDateUtc"@) by { assert("shortDescription"@.len() != "CreationDateUtc"@.len()); }
    assert("longDescription"@ != "CreationDateUtc"@) by { assert("longDescription"@[0] != "CreationDateUtc"@[0]); }
    assert("imageBaseName"@ != "CreationDateUtc"@) by { assert("imageBaseName"@.len() != "CreationDateUtc"@.len()); }
    assert("imageBaseLanguage"@ != "CreationDateUtc"@) by { assert("imageBaseLanguage"@.len() != "CreationDateUtc"@.len()); }
    assert("redemptionMode"@ != "CreationDateUtc"@) by { assert("redemptionMode"@.len() != "CreationDateUtc"@.len()); }
    assert("isArchived"@ != "CreationDateUtc"@) by { assert("isArchived"@.len() != "CreationDateUtc"@.len()); }
    assert("isSLPOffer"@ != "CreationDateUtc"@) by { assert("isSLPOffer"@.len() != "CreationDateUtc"@.len()); }
    assert("isLocked"@ != "CreationDateUtc"@) by { assert("isLocked"@.len() != "CreationDateUtc"@.len()); }
    assert("isRedeemed"@ != "CreationDateUtc"@) by { assert("isRedeemed"@.len() != "CreationDateUtc"@.len()); }
    assert("offerBucket"@ != "CreationDateUtc"@) by { assert("offerBucket"@.len() != "CreationDateUtc"@.len()); }
    assert("punchInfo"@ != "CreationDateUtc"@) by { assert("punchInfo"@.len() != "CreationDateUtc"@.len()); }
    assert("recurringInfo"@ != "CreationDateUtc"@) by { assert("recurringInfo"@.len() != "CreationDateUtc"@.len()); }
    assert("conditions"@ != "CreationDateUtc"@) by { assert("conditions"@.len() != "CreationDateUtc"@.len()); }
    assert("colorCodingInfo"@ != "CreationDateUtc"@) by { assert("colorCodingInfo"@[0] != "CreationDateUtc"@[0]); }
    assert("isvalidTotalOrder"@ != "CreationDateUtc"@) by { assert("isvalidTotalOrder"@.len() != "CreationDateUtc"@.len()); }
    assert("offerId"@ != "extendToEOD"@) by { assert("offerId"@.len() != "extendToEOD"@.len()); }
    assert("offerPropositionId"@ != "extendToEOD"@) by { assert("offerPropositionId"@.len() != "extendToEOD"@.len()); }
    assert("offerType"@ != "extendToEOD"@) by { assert("offerType"@.len() != "extendToEOD"@.len()); }
    assert("localValidFrom"@ != "extendToEOD"@) by { assert("localValidFrom"@.len() != "extendToEOD"@.len()); }
    assert("localValidTo"@ != "extendToEOD"@) by { assert("localValidTo"@.len() != "extendToEOD"@.len()); }
    assert("validFromUTC"@ != "extendToEOD"@) by { assert("validFromUTC"@.len() != "extendToEOD"@.len()); }
    assert("validToUTC"@ != "extendToEOD"@) by { assert("validToUTC"@.len() != "extendToEOD"@.len()); }
    assert("name"@ != "extendToEOD"@) by { assert("name"@.len() != "extendToEOD"@.len()); }
    assert("shortDescription"@ != "extendToEOD"@) by { assert("shortDescription"@.len() != "extendToEOD"@.len()); }
    assert("longDescription"@ != "extendToEOD"@) by { assert("longDescription"@.len() != "extendToEOD"@.len()); }
    assert("imageBaseName"@ != "extendToEOD"@) by { assert("imageBaseName"@.len() != "extendToEOD"@.len()); }
    assert("imageBaseLanguage"@ != "extendToEOD"@) by { assert("imageBaseLanguage"@.len() != "extendToEOD"@.len()); }
    assert("redemptionMode"@ != "extendToEOD"@) by { assert("redemptionMode"@.len() != "extendToEOD"@.len()); }
    assert("isArchived"@ != "extendToEOD"@) by { assert("isArchived"@.len() != "extendToEOD"@.len()); }
    assert("isSLPOffer"@ != "extendToEOD"@) by { assert("isSLPOffer"@.len() != "extendToEOD"@.len()); }
    assert("isLocked"@ != "extendToEOD"@) by { assert("isLocked"@.len() != "extendToEOD"@.len()); }
    assert("isRedeemed"@ != "extendToEOD"@) by { assert("isRedeemed"@.len() != "extendToEOD"@.len()); }
    assert("offerBucket"@ != "extendToEOD"@) by { assert("offerBucket"@[0] != "extendToEOD"@[0]); }
    assert("punchInfo"@ != "extendToEOD"@) by { assert("punchInfo"@.len() != "extendToEOD"@.len()); }
    assert("recurringInfo"@ != "extendToEOD"@) by { assert("recurringInfo"@.len() != "extendToEOD"@.len()); }
    assert("conditions"@ != "extendToEOD"@) by { assert("conditions"@.len() != "extendToEOD"@.len()); }
    assert("colorCodingInfo"@ != "extendToEOD"@) by { assert("colorCodingInfo"@.len() != "extendToEOD"@.len()); }
    assert("isvalidTotalOrder"@ != "extendToEOD"@) by { assert("isvalidTotalOrder"@.len() != "extendToEOD"@.len()); }
    assert("CreationDateUtc"@ != "extendToEOD"@) by { assert("CreationDateUtc"@.len() != "extendToEOD"@.len()); }
    assert("offerId"@ != "isDynamicExpiration"@) by { assert("offerId"@.len() != "isDynamicExpiration"@.len()); }
    assert("offerPropositionId"@ != "isDynamicExpiration"@) by { assert("offerPropositionId"@.len() != "isDynamicExpiration"@.len()); }
    assert("offerType"@ != "isDynamicExpiration"@) by { assert("offerType"@.len() != "isDynamicExpiration"@.len()); }
    assert("localValidFrom"@ != "isDynamicExpiration"@) by { assert("localValidFrom"@.len() != "isDynamicExpiration"@.len()); }
    assert("localValidTo"@ != "isDynamicExpiration"@) by { assert("localValidTo"@.len() != "isDynamicExpiration"@.len()); }
    assert("validFromUTC"@ != "isDynamicExpiration"@) by { assert("validFromUTC"@.len() != "isDynamicExpiration"@.len()); }
    assert("validToUTC"@ != "isDynamicExpiration"@) by { assert("validToUTC"@.len() != "isDynamicExpiration"@.len()); }
    assert("name"@ != "isDynamicExpiration"@) by { assert("name"@.len() != "isDynamicExpiration"@.len()); }
    assert("shortDescription"@ != "isDynamicExpiration"@) by { assert("shortDescription"@.len() != "isDynamicExpiration"@.len()); }
    assert("longDescription"@ != "isDynamicExpiration"@) by { assert("longDescription"@.len() != "isDynamicExpiration"@.len()); }
    assert("imageBaseName"@ != "isDynamicExpiration"@) by { assert("imageBaseName"@.len() != "isDynamicExpiration"@.len()); }
    assert("imageBaseLanguage"@ != "isDynamicExpiration"@) by { assert("imageBaseLanguage"@.len() != "isDynamicExpiration"@.len()); }
    assert("redemptionMode"@ != "isDynamicExpiration"@) by { assert("redemptionMode"@.len() != "isDynamicExpiration"@.len()); }
    assert("isArchived"@ != "isDynamicExpiration"@) by { assert("isArchived"@.len() != "isDynamicExpiration"@.len()); }
    assert("isSLPOffer"@ != "isDynamicExpiration"@) by { assert("isSLPOffer"@.len() != "isDynamicExpiration"@.len()); }
    assert("isLocked"@ != "isDynamicExpiration"@) by { assert("isLocked"@.len() != "isDynamicExpiration"@.len()); }
    assert("isRedeemed"@ != "isDynamicExpiration"@) by { assert("isRedeemed"@.len() != "isDynamicExpiration"@.len()); }
    assert("offerBucket"@ != "isDynamicExpiration"@) by { assert("offerBucket"@.len() != "isDynamicExpiration"@.len()); }
    assert("punchInfo"@ != "isDynamicExpiration"@) by { assert("punchInfo"@.len() != "isDynamicExpiration"@.len()); }
    assert("recurringInfo"@ != "isDynamicExpiration"@) by { assert("recurringInfo"@.len() != "isDynamicExpiration"@.len()); }
    assert("conditions"@ != "isDynamicExpiration"@) by { assert("conditions"@.len() != "isDynamicExpiration"@.len()); }
    assert("colorCodingInfo"@ != "isDynamicExpiration"@) by { assert("colorCodingInfo"@.len() != "isDynamicExpiration"@.len()); }
    assert("isvalidTotalOrder"@ != "isDynamicExpiration"@) by { assert("isvalidTotalOrder"@.len() != "isDynamicExpiration"@.len()); }
    assert("CreationDateUtc"@ != "isDynamicExpiration"@) by { assert("CreationDateUtc"@.len() != "isDynamicExpiration"@.len()); }
    assert("extendToEOD"@ != "isDynamicExpiration"@) by { assert("extendToEOD"@.len() != "isDynamicExpiration"@.len()); }
    assert("offerId"@ != "daypartFilters"@) by { assert("offerId"@.len() != "daypartFilters"@.len()); }
    assert("offerPropositionId"@ != "daypartFilters"@) by { assert("offerPropositionId"@.len() != "daypartFilters"@.len()); }
    assert("offerType"@ != "daypartFilters"@) by { assert("offerType"@.len() != "daypartFilters"@.len()); }
    assert("localValidFrom"@ != "daypartFilters"@) by { assert("localValidFrom"@[0] != "daypartFilters"@[0]); }
    assert("localValidTo"@ != "daypartFilters"@) by { assert("localValidTo"@.len() != "daypartFilters"@.len()); }
    assert("validFromUTC"@ != "daypartFilters"@) by { assert("validFromUTC"@.len() != "daypartFilters"@.len()); }
    assert("validToUTC"@ != "daypartFilters"@) by { assert("validToUTC"@.len() != "daypartFilters"@.len()); }
    assert("name"@ != "daypartFilters"@) by { assert("name"@.len() != "daypartFilters"@.len()); }
    assert("shortDescription"@ != "daypartFilters"@) by { assert("shortDescription"@.len() != "daypartFilters"@.len()); }
    assert("longDescription"@ != "daypartFilters"@) by { assert("longDescription"@.len() != "daypartFilters"@.len()); }
    assert("imageBaseName"@ != "daypartFilters"@) by { assert("imageBaseName"@.len() != "daypartFilters"@.len()); }
    assert("imageBaseLanguage"@ != "daypartFilters"@) by { assert("imageBaseLanguage"@.len() != "daypartFilters"@.len()); }
    assert("redemptionMode"@ != "daypartFilters"@) by { assert("redemptionMode"@[0] != "daypartFilters"@[0]); }
    assert("isArchived"@ != "daypartFilters"@) by { assert("isArchived"@.len() != "daypartFilters"@.len()); }
    assert("isSLPOffer"@ != "daypartFilters"@) by { assert("isSLPOffer"@.len() != "daypartFilters"@.len()); }
    assert("isLocked"@ != "daypartFilters"@) by { assert("isLocked"@.len() != "daypartFilters"@.len()); }
    assert("isRedeemed"@ != "daypartFilters"@) by { assert("isRedeemed"@.len() != "daypartFilters"@.len()); }
    assert("offerBucket"@ != "daypartFilters"@) by { assert("offerBucket"@.len() != "daypartFilters"@.len()); }
    assert("punchInfo"@ != "daypartFilters"@) by { assert("punchInfo"@.len() != "daypartFilters"@.len()); }
    assert("recurringInfo"@ != "daypartFilters"@) by { assert("recurringInfo"@.len() != "daypartFilters"@.len()); }
    assert("conditions"@ != "daypartFilters"@) by { assert("conditions"@.len() != "daypartFilters"@.len()); }
    assert("colorCodingInfo"@ != "daypartFilters"@) by { assert("colorCodingInfo"@.len() != "daypartFilters"@.len()); }
    assert("isvalidTotalOrder"@ != "daypartFilters"@) by { assert("isvalidTotalOrder"@.len() != "daypartFilters"@.len()); }
    assert("CreationDateUtc"@ != "daypartFilters"@) by { assert("CreationDateUtc"@.len() != "daypartFilters"@.len()); }
    assert("extendToEOD"@ != "daypartFilters"@) by { assert("extendToEOD"@.len() != "daypartFilters"@.len()); }
    assert("isDynamicExpiration"@ != "daypartFilters"@) by { assert("isDynamicExpiration"@.len() != "daypartFilters"@.len()); }
    let j = offer_to_json(v);
    let fs = j->Obj_0;
    assert(f_i64(fs, "offerId"@) == Some(v.offer_id));
    assert(f_i64(fs, "offerPropositionId"@) == Some(v.offer_proposition_id));
    assert(f_i64(fs, "offerType"@) == Some(v.offer_type));
    assert(f_str(fs, "localValidFrom"@) == Some(v.local_valid_from));
    assert(f_str(fs, "localValidTo"@) == Some(v.local_valid_to));
    assert(f_str(fs, "validFromUTC"@) == Some(v.valid_from_utc));
    assert(f_str(fs, "validToUTC"@) == Some(v.valid_to_utc));
    assert(f_str(fs, "name"@) == Some(v.name));
    assert(f_str(fs, "shortDescription"@) == Some(v.short_description));
    assert(f_str(fs, "longDescription"@) == Some(v.long_description));
    assert(f_str(fs, "imageBaseName"@) == Some(v.image_base_name));
    assert(f_opt_str(fs, "imageBaseLanguage"@) == Some(v.image_base_language));
    assert(f_i64(fs, "redemptionMode"@) == Some(v.redemption_mode));
    assert(f_bool(fs, "isArchived"@) == Some(v.is_archived));
    assert(f_bool(fs, "isSLPOffer"@) == Some(v.is_slpoffer));
    assert(f_bool(fs, "isLocked"@) == Some(v.is_locked));
    assert(f_bool(fs, "isRedeemed"@) == Some(v.is_redeemed));
    assert(f_str(fs, "offerBucket"@) == Some(v.offer_bucket));
    assert(f_val(fs, "punchInfo"@) == Some(punch_info_to_json(v.punch_info)));
    lemma_punch_info_round_trip(v.punch_info);
    match v.recurring_info {
        Some(x) => {
            assert(f_opt_val(fs, "recurringInfo"@) == Some(Some(recurring_info_to_json(x))));
            lemma_recurring_info_round_trip(x);
        },
        None => {
            assert(f_opt_val(fs, "recurringInfo"@) == Some(None::<JsonV>));
        },
    }
    assert(f_val(fs, "conditions"@) == Some(conditions_to_json(v.conditions)));
    lemma_conditions_round_trip(v.conditions);
    assert(f_i64(fs, "colorCodingInfo"@) == Some(v.color_coding_info));
    assert(f_bool(fs, "isvalidTotalOrder"@) == Some(v.isvalid_total_order));
    assert(f_str(fs, "CreationDateUtc"@) == Some(v.creation_date_utc));
    assert(f_bool(fs, "extendToEOD"@) == Some(v.extend_to_eod));
    assert(f_bool(fs, "isDynamicExpiration"@) == Some(v.is_dynamic_expiration));
    assert(f_arr(fs, "daypartFilters"@) == Some(v.daypart_filters));
}


/// The views of a vector of `Offer` values.
pub open spec fn offer_seq_view(v: Vec<Offer>) -> Seq<OfferV> {
    Seq::new(
        v@.len(),
        |i: int|
            if 0 <= i < v@.len() {
                v@[i]@
            } else {
                arbitrary()
            },
    )
}

pub open spec fn offer_items_json(s: Seq<OfferV>) -> Seq<JsonV> {
    Seq::new(s.len(), |i: int| offer_to_json(s[i]))
}

pub open spec fn offer_items_from(items: Seq<JsonV>) -> Option<Seq<OfferV>>
    decreases items.len(),
{
    if items.len() == 0 {
        Some(Seq::empty())
    } else {
        match offer_from_json(items[0]) {
            Some(v) => match offer_items_from(items.drop_first()) {
                Some(rest) => Some(seq![v] + rest),
                None => None,
            },
            None => None,
        }
    }
}

fn offer_vec_to_json(v: &Vec<Offer>) -> (r: Json)
    ensures
        r@ == JsonV::Arr(offer_items_json(offer_seq_view(*v))),
{
    let ghost sv = offer_seq_view(*v);
    let mut out: Vec<Json> = Vec::new();
    let mut i: usize = 0;
    while i < v.len()
        invariant
            i <= v@.len(),
            sv == offer_seq_view(*v),
            out@.len() == i,
            forall|k: int| 0 <= k < i ==> (#[trigger] out@[k])@ == offer_to_json(sv[k]),
        decreases v@.len() - i,
    {
        let item = v[i].to_json();
        out.push(item);
        i = i + 1;
    }
    let r = Json::Arr(out);
    proof {
        assert(r@->Arr_0 =~= offer_items_json(sv));
    }
    r
}

fn offer_vec_from_json(items: &Vec<Json>) -> (r: Option<Vec<Offer>>)
    ensures
        match r {
            Some(out) => offer_items_from(json_seq_view(*items)) == Some(offer_seq_view(out)),
            None => offer_items_from(json_seq_view(*items)) is None,
        },
{
    let ghost av = json_seq_view(*items);
    let mut out: Vec<Offer> = Vec::new();
    let mut i: usize = 0;
    proof {
        assert(av.skip(0) =~= av);
        match offer_items_from(av) {
            Some(rest) => {
                assert(offer_seq_view(out) + rest =~= rest);
            },
            None => {},
        }
    }
    while i < items.len()
        invariant
            i <= items@.len(),
            av == json_seq_view(*items),
            offer_seq_view(out).len() == i,
            match offer_items_from(av.skip(i as int)) {
                Some(rest) => offer_items_from(av) == Some(offer_seq_view(out) + rest),
                None => offer_items_from(av) is None,
            },
        decreases items@.len() - i,
    {
        proof {
            assert(av.skip(i as int)[0] == av[i as int]);
            assert(av[i as int] == items@[i as int]@);
            assert(av.skip(i as int).drop_first() =~= av.skip(i + 1));
        }
        let ghost prev = offer_seq_view(out);
        match Offer::from_json(&items[i]) {
            Some(v) => {
                out.push(v);
                proof {
                    assert(offer_seq_view(out) =~= prev.push(out@[i as int]@));
                    match offer_items_from(av.skip(i + 1)) {
                        Some(rest) => {
                            assert(offer_seq_view(out) + rest =~= prev + (seq![out@[
                                i as int
                            ]@] + rest));
                        },
                        None => {},
                    }
                }
                i = i + 1;
            },
            None => {
                return None;
            },
        }
    }
    proof {
        assert(av.skip(i as int) =~= Seq::<JsonV>::empty());
        assert(offer_items_from(Seq::<JsonV>::empty()) == Some(Seq::<OfferV>::empty()));
        assert(offer_seq_view(out) + Seq::<OfferV>::empty() =~= offer_seq_view(out));
    }
    Some(out)
}

/// Decoding an encoded list gives the list back.
pub proof fn lemma_offer_items_round_trip(s: Seq<OfferV>)
    ensures
        offer_items_from(offer_items_json(s)) == Some(s),
    decreases s.len(),
{
    let js = offer_items_json(s);
    if s.len() == 0 {
    } else {
        assert(js[0] == offer_to_json(s[0]));
        lemma_offer_round_trip(s[0]);
        assert(js.drop_first() =~= offer_items_json(s.drop_first()));
        lemma_offer_items_round_trip(s.drop_first());
        assert(seq![s[0]] + s.drop_first() =~= s);
    }
}

/// The payload of the offers listing.
#[derive(Debug, PartialEq)]
pub struct OfferList {
    pub offers: Vec<Offer>,
}

pub struct OfferListV {
    pub offers: Seq<OfferV>,
}

impl View for OfferList {
    type V = OfferListV;

    open spec fn view(&self) -> OfferListV {
        OfferListV {
            offers: offer_seq_view(self.offers),
        }
    }
}

pub open spec fn offer_list_to_json(v: OfferListV) -> JsonV {
    JsonV::Obj(
        seq![
            ("offers"@, JsonV::Arr(offer_items_json(v.offers))),
        ],
    )
}

pub open spec fn offer_list_from_json(j: JsonV) -> Option<OfferListV> {
    match j {
        JsonV::Obj(fs) => match (
            (match f_arr(fs, "offers"@) { Some(items) => offer_items_from(items), None => None }),
        ) {
            (Some(offers),) => Some(
                OfferListV { offers },
            ),
            _ => None,
        },
        _ => None,
    }
}

impl OfferList {
    pub fn to_json(&self) -> (r: Json)
        ensures
            r@ == offer_list_to_json(self@),
    {
        let mut fs: Vec<(String, Json)> = Vec::new();
        fs.push(("offers".to_owned(), offer_vec_to_json(&self.offers)));
        let r = Json::Obj(fs);
        proof {
            reveal_with_fuel(crate::json::json_view, 2);
            assert(r@ matches JsonV::Obj(x));
            assert(r@->Obj_0[0] == ("offers"@, JsonV::Arr(offer_items_json(self@.offers))));
            assert(r@->Obj_0 =~= offer_list_to_json(self@)->Obj_0);
            assert(r@ == offer_list_to_json(self@));
        }
        r
    }

    pub fn from_json(j: &Json) -> (r: Option<OfferList>)
        ensures
            match r {
                Some(v) => offer_list_from_json(j@) == Some(v@),
                None => offer_list_from_json(j@) is None,
            },
    {
        match j {
            Json::Obj(_) => {},
            _ => {
                return None;
            },
        }
        let offers = match e_val(j, "offers") {
            Some(v) => {
                let ghost gv = v@;
                match v {
                    Json::Arr(items) => {
                        proof {
                            assert(gv matches JsonV::Arr(ga));
                            assert(gv->Arr_0 =~= json_seq_view(items));
                            assert(gv == JsonV::Arr(json_seq_view(items)));
                        }
                        match offer_vec_from_json(&items) {
                            Some(y) => y,
                            None => {
                                return None;
                            },
                        }
                    },
                    _ => {
                        proof {
                            assert(!(gv is Arr));
                        }
                        return None;
                    },
                }
            },
            None => {
                return None;
            },
        };
        Some(OfferList { offers })
    }
}

/// Decoding an encoded value gives the value back.
pub proof fn lemma_offer_list_round_trip(v: OfferListV)
    ensures
        offer_list_from_json(offer_list_to_json(v)) == Some(v),
{
    reveal_strlit("offers");
    reveal_with_fuel(crate::json::obj_lookup, 3);

    let j = offer_list_to_json(v);
    let fs = j->Obj_0;
    assert(f_arr(fs, "offers"@) == Some(offer_items_json(v.offers)));
    lemma_offer_items_round_trip(v.offers);
}

/// The offers envelope; an absent payload is a valid success state.
#[derive(Debug, PartialEq)]
pub struct OfferResponse {
    pub status: Status,
    pub response: Option<OfferList>,
}

pub struct OfferResponseV {
    pub status: StatusV,
    pub response: Option<OfferListV>,
}

impl View for OfferResponse {
    type V = OfferResponseV;

    open spec fn view(&self) -> OfferResponseV {
        OfferResponseV {
            status: self.status@,
            response: (match self.response { Some(x) => Some(x@), None => None }),
        }
    }
}

pub open spec fn offer_response_to_json(v: OfferResponseV) -> JsonV {
    JsonV::Obj(
        seq![
            ("status"@, status_to_json(v.status)),
            ("response"@, (match v.response { Some(x) => offer_list_to_json(x), None => JsonV::Null })),
        ],
    )
}

pub open spec fn offer_response_from_json(j: JsonV) -> Option<OfferResponseV> {
    match j {
        JsonV::Obj(fs) => match (
            (match f_val(fs, "status"@) { Some(x) => status_from_json(x), None => None }),
            (match f_opt_val(fs, "response"@) { Some(Some(x)) => (match offer_list_from_json(x) { Some(y) => Some(Some(y)), None => None }), Some(None) => Some(None), None => None }),
        ) {
            (Some(status), Some(response)) => Some(
                OfferResponseV { status, response },
            ),
            _ => None,
        },
        _ => None,
    }
}

impl OfferResponse {
    pub fn to_json(&self) -> (r: Json)
        ensures
            r@ == offer_response_to_json(self@),
    {
        let mut fs: Vec<(String, Json)> = Vec::new();
        fs.push(("status".to_owned(), self.status.to_json()));
        fs.push(("response".to_owned(), (match &self.response { Some(x) => x.to_json(), None => Json::Null })));
        let r = Json::Obj(fs);
        proof {
            reveal_with_fuel(crate::json::json_view, 2);
            assert(r@ matches JsonV::Obj(x));
            assert(r@->Obj_0[0] == ("status"@, status_to_json(self@.status)));
            assert(r@->Obj_0[1] == ("response"@, (match self@.response { Some(x) => offer_list_to_json(x), None => JsonV::Null })));
            assert(r@->Obj_0 =~= offer_response_to_json(self@)->Obj_0);
            assert(r@ == offer_response_to_json(self@));
        }
        r
    }

    pub fn from_json(j: &Json) -> (r: Option<OfferResponse>)
        ensures
            match r {
                Some(v) => offer_response_from_json(j@) == Some(v@),
                None => offer_response_from_json(j@) is None,
            },
    {
        match j {
            Json::Obj(_) => {},
            _ => {
                return None;
            },
        }
        let status = match j.get("status") {
            Some(x) => match Status::from_json(x) {
                Some(y) => y,
                None => {
                    return None;
                },
            },
            None => {
                return None;
            },
        };
        let response = match e_opt_val(j, "response") {
            Some(Some(x)) => match OfferList::from_json(x) {
                Some(y) => Some(y),
                None => {
                    return None;
                },
            },
            Some(None) => None,
            None => {
                return None;
            },
        };
        Some(OfferResponse { status, response })
    }
}

/// Decoding an encoded value gives the value back.
pub proof fn lemma_offer_response_round_trip(v: OfferResponseV)
    ensures
        offer_response_from_json(offer_response_to_json(v)) == Some(v),
{
    reveal_strlit("status");
    reveal_strlit("response");
    reveal_with_fuel(crate::json::obj_lookup, 4);
    assert("status"@ != "response"@) by { assert("status"@.len() != "response"@.len()); }
    let j = offer_response_to_json(v);
    let fs = j->Obj_0;
    assert(f_val(fs, "status"@) == Some(status_to_json(v.status)));
    lemma_status_round_trip(v.status);
    match v.response {
        Some(x) => {
            assert(f_opt_val(fs, "response"@) == Some(Some(offer_list_to_json(x))));
            lemma_offer_list_round_trip(x);
        },
        None => {
            assert(f_opt_val(fs, "response"@) == Some(None::<JsonV>));
        },
    }
}

/// One entry of the server-side deal stack.
#[derive(Debug, PartialEq)]
pub struct DealStack {
    pub offer_id: i64,
    pub offer_proposition_id: String,
    pub state: Option<String>,
}

pub struct DealStackV {
    pub offer_id: int,
    pub offer_proposition_id: Seq<char>,
    pub state: Option<Seq<char>>,
}

impl View for DealStack {
    type V = DealStackV;

    open spec fn view(&self) -> DealStackV {
        DealStackV {
            offer_id: self.offer_id as int,
            offer_proposition_id: self.offer_proposition_id@,
            state: (match self.state { Some(s) => Some(s@), None => None }),
        }
    }
}

pub open spec fn deal_stack_to_json(v: DealStackV) -> JsonV {
    JsonV::Obj(
        seq![
            ("offerId"@, JsonV::Int(v.offer_id)),
            ("offerPropositionId"@, JsonV::Str(v.offer_proposition_id)),
            ("state"@, opt_str_json(v.state)),
        ],
    )
}

pub open spec fn deal_stack_from_json(j: JsonV) -> Option<DealStackV> {
    match j {
        JsonV::Obj(fs) => match (
            f_i64(fs, "offerId"@),
            f_str(fs, "offerPropositionId"@),
            f_opt_str(fs, "state"@),
        ) {
            (Some(offer_id), Some(offer_proposition_id), Some(state)) => Some(
                DealStackV { offer_id, offer_proposition_id, state },
            ),
            _ => None,
        },
        _ => None,
    }
}

impl DealStack {
    pub fn to_json(&self) -> (r: Json)
        ensures
            r@ == deal_stack_to_json(self@),
    {
        let mut fs: Vec<(String, Json)> = Vec::new();
        fs.push(("offerId".to_owned(), Json::Int(self.offer_id)));
        fs.push(("offerPropositionId".to_owned(), Json::Str(self.offer_proposition_id.clone())));
        fs.push(("state".to_owned(), opt_str_to_json(&self.state)));
        let r = Json::Obj(fs);
        proof {
            reveal_with_fuel(crate::json::json_view, 2);
            assert(r@ matches JsonV::Obj(x));
            assert(r@->Obj_0[0] == ("offerId"@, JsonV::Int(self@.offer_id)));
            assert(r@->Obj_0[1] == ("offerPropositionId"@, JsonV::Str(self@.offer_proposition_id)));
            assert(r@->Obj_0[2] == ("state"@, opt_str_json(self@.state)));
            assert(r@->Obj_0 =~= deal_stack_to_json(self@)->Obj_0);
            assert(r@ == deal_stack_to_json(self@));
        }
        r
    }

    pub fn from_json(j: &Json) -> (r: Option<DealStack>)
        ensures
            match r {
                Some(v) => deal_stack_from_json(j@) == Some(v@),
                None => deal_stack_from_json(j@) is None,
            },
    {
        match j {
            Json::Obj(_) => {},
            _ => {
                return None;
            },
        }
        let offer_id = match e_i64(j, "offerId") {
            Some(v) => v,
            None => {
                return None;
            },
        };
        let offer_proposition_id = match e_str(j, "offerPropositionId") {
            Some(v) => v,
            None => {
                return None;
            },
        };
        let state = match e_opt_str(j, "state") {
            Some(v) => v,
            None => {
                return None;
            },
        };
        Some(DealStack { offer_id, offer_proposition_id, state })
    }
}

/// Decoding an encoded value gives the value back.
pub proof fn lemma_deal_stack_round_trip(v: DealStackV)
    ensures
        deal_stack_from_json(deal_stack_to_json(v)) == Some(v),
{
    reveal_strlit("offerId");
    reveal_strlit("offerPropositionId");
    reveal_strlit("state");
    reveal_with_fuel(crate::json::obj_lookup, 5);
    assert("offerId"@ != "offerPropositionId"@) by { assert("offerId"@.len() != "offerPropositionId"@.len()); }
    assert("offerId"@ != "state"@) by { assert("offerId"@.len() != "state"@.len()); }
    assert("offerPropositionId"@ != "state"@) by { assert("offerPropositionId"@.len() != "state"@.len()); }
    let j = deal_stack_to_json(v);
    let fs = j->Obj_0;
    assert(f_i64(fs, "offerId"@) == Some(v.offer_id));
    assert(f_str(fs, "offerPropositionId"@) == Some(v.offer_proposition_id));
    assert(f_opt_str(fs, "state"@) == Some(v.state));
}


/// The views of a vector of `DealStack` values.
pub open spec fn deal_stack_seq_view(v: Vec<DealStack>) -> Seq<DealStackV> {
    Seq::new(
        v@.len(),
        |i: int|
            if 0 <= i < v@.len() {
                v@[i]@
            } else {
                arbitrary()
            },
    )
}

pub open spec fn deal_stack_items_json(s: Seq<DealStackV>) -> Seq<JsonV> {
    Seq::new(s.len(), |i: int| deal_stack_to_json(s[i]))
}

pub open spec fn deal_stack_items_from(items: Seq<JsonV>) -> Option<Seq<DealStackV>>
    decreases items.len(),
{
    if items.len() == 0 {
        Some(Seq::empty())
    } else {
        match deal_stack_from_json(items[0]) {
            Some(v) => match deal_stack_items_from(items.drop_first()) {
                Some(rest) => Some(seq![v] + rest),
                None => None,
            },
            None => None,
        }
    }
}

fn deal_stack_vec_to_json(v: &Vec<DealStack>) -> (r: Json)
    ensures
        r@ == JsonV::Arr(deal_stack_items_json(deal_stack_seq_view(*v))),
{
    let ghost sv = deal_stack_seq_view(*v);
    let mut out: Vec<Json> = Vec::new();
    let mut i: usize = 0;
    while i < v.len()
        invariant
            i <= v@.len(),
            sv == deal_stack_seq_view(*v),
            out@.len() == i,
            forall|k: int| 0 <= k < i ==> (#[trigger] out@[k])@ == deal_stack_to_json(sv[k]),
        decreases v@.len() - i,
    {
        let item = v[i].to_json();
        out.push(item);
        i = i + 1;
    }
    let r = Json::Arr(out);
    proof {
        assert(r@->Arr_0 =~= deal_stack_items_json(sv));
    }
    r
}

fn deal_stack_vec_from_json(items: &Vec<Json>) -> (r: Option<Vec<DealStack>>)
    ensures
        match r {
            Some(out) => deal_stack_items_from(json_seq_view(*items)) == Some(deal_stack_seq_view(out)),
            None => deal_stack_items_from(json_seq_view(*items)) is None,
        },
{
    let ghost av = json_seq_view(*items);
    let mut out: Vec<DealStack> = Vec::new();
    let mut i: usize = 0;
    proof {
        assert(av.skip(0) =~= av);
        match deal_stack_items_from(av) {
            Some(rest) => {
                assert(deal_stack_seq_view(out) + rest =~= rest);
            },
            None => {},
        }
    }
    while i < items.len()
        invariant
            i <= items@.len(),
            av == json_seq_view(*items),
            deal_stack_seq_view(out).len() == i,
            match deal_stack_items_from(av.skip(i as int)) {
                Some(rest) => deal_stack_items_from(av) == Some(deal_stack_seq_view(out) + rest),
                None => deal_stack_items_from(av) is None,
            },
        decreases items@.len() - i,
    {
        proof {
            assert(av.skip(i as int)[0] == av[i as int]);
            assert(av[i as int] == items@[i as int]@);
            assert(av.skip(i as int).drop_first() =~= av.skip(i + 1));
        }
        let ghost prev = deal_stack_seq_view(out);
        match DealStack::from_json(&items[i]) {
            Some(v) => {
                out.push(v);
                proof {
                    assert(deal_stack_seq_view(out) =~= prev.push(out@[i as int]@));
                    match deal_stack_items_from(av.skip(i + 1)) {
                        Some(rest) => {
                            assert(deal_stack_seq_view(out) + rest =~= prev + (seq![out@[
                                i as int
                            ]@] + rest));
                        },
                        None => {},
                    }
                }
                i = i + 1;
            },
            None => {
                return None;
            },
        }
    }
    proof {
        assert(av.skip(i as int) =~= Seq::<JsonV>::empty());
        assert(deal_stack_items_from(Seq::<JsonV>::empty()) == Some(Seq::<DealStackV>::empty()));
        assert(deal_stack_seq_view(out) + Seq::<DealStackV>::empty() =~= deal_stack_seq_view(out));
    }
    Some(out)
}

/// Decoding an encoded list gives the list back.
pub proof fn lemma_deal_stack_items_round_trip(s: Seq<DealStackV>)
    ensures
        deal_stack_items_from(deal_stack_items_json(s)) == Some(s),
    decreases s.len(),
{
    let js = deal_stack_items_json(s);
    if s.len() == 0 {
    } else {
        assert(js[0] == deal_stack_to_json(s[0]));
        lemma_deal_stack_round_trip(s[0]);
        assert(js.drop_first() =~= deal_stack_items_json(s.drop_first()));
        lemma_deal_stack_items_round_trip(s.drop_first());
        assert(seq![s[0]] + s.drop_first() =~= s);
    }
}

/// The redemption codes and the applied offers, when any.
#[derive(Debug, PartialEq)]
pub struct OfferDealStack {
    pub random_code: String,
    pub bar_code_content: String,
    pub expiration_time: String,
    pub deal_stack: Option<Vec<DealStack>>,
}

pub struct OfferDealStackV {
    pub random_code: Seq<char>,
    pub bar_code_content: Seq<char>,
    pub expiration_time: Seq<char>,
    pub deal_stack: Option<Seq<DealStackV>>,
}

impl View for OfferDealStack {
    type V = OfferDealStackV;

    open spec fn view(&self) -> OfferDealStackV {
        OfferDealStackV {
            random_code: self.random_code@,
            bar_code_content: self.bar_code_content@,
            expiration_time: self.expiration_time@,
            deal_stack: (match self.deal_stack { Some(x) => Some(deal_stack_seq_view(x)), None => None }),
        }
    }
}

pub open spec fn offer_deal_stack_to_json(v: OfferDealStackV) -> JsonV {
    JsonV::Obj(
        seq![
            ("randomCode"@, JsonV::Str(v.random_code)),
            ("barCodeContent"@, JsonV::Str(v.bar_code_content)),
            ("expirationTime"@, JsonV::Str(v.expiration_time)),
            ("dealStack"@, (match v.deal_stack { Some(x) => JsonV::Arr(deal_stack_items_json(x)), None => JsonV::Null })),
        ],
    )
}

pub open spec fn offer_deal_stack_from_json(j: JsonV) -> Option<OfferDealStackV> {
    match j {
        JsonV::Obj(fs) => match (
            f_str(fs, "randomCode"@),
            f_str(fs, "barCodeContent"@),
            f_str(fs, "expirationTime"@),
            (match f_opt_val(fs, "dealStack"@) { Some(Some(x)) => (match x { JsonV::Arr(items) => (match deal_stack_items_from(items) { Some(y) => Some(Some(y)), None => None }), _ => None }), Some(None) => Some(None), None => None }),
        ) {
            (Some(random_code), Some(bar_code_content), Some(expiration_time), Some(deal_stack)) => Some(
                OfferDealStackV { random_code, bar_code_content, expiration_time, deal_stack },
            ),
            _ => None,
        },
        _ => None,
    }
}

impl OfferDealStack {
    pub fn to_json(&self) -> (r: Json)
        ensures
            r@ == offer_deal_stack_to_json(self@),
    {
        let mut fs: Vec<(String, Json)> = Vec::new();
        fs.push(("randomCode".to_owned(), Json::Str(self.random_code.clone())));
        fs.push(("barCodeContent".to_owned(), Json::Str(self.bar_code_content.clone())));
        fs.push(("expirationTime".to_owned(), Json::Str(self.expiration_time.clone())));
        fs.push(("dealStack".to_owned(), (match &self.deal_stack { Some(x) => deal_stack_vec_to_json(x), None => Json::Null })));
        let r = Json::Obj(fs);
        proof {
            reveal_with_fuel(crate::json::json_view, 2);
            assert(r@ matches JsonV::Obj(x));
            assert(r@->Obj_0[0] == ("randomCode"@, JsonV::Str(self@.random_code)));
            assert(r@->Obj_0[1] == ("barCodeContent"@, JsonV::Str(self@.bar_code_content)));
            assert(r@->Obj_0[2] == ("expirationTime"@, JsonV::Str(self@.expiration_time)));
            assert(r@->Obj_0[3] == ("dealStack"@, (match self@.deal_stack { Some(x) => JsonV::Arr(deal_stack_items_json(x)), None => JsonV::Null })));
            assert(r@->Obj_0 =~= offer_deal_stack_to_json(self@)->Obj_0);
            assert(r@ == offer_deal_stack_to_json(self@));
        }
        r
    }

    pub fn from_json(j: &Json) -> (r: Option<OfferDealStack>)
        ensures
            match r {
                Some(v) => offer_deal_stack_from_json(j@) == Some(v@),
                None => offer_deal_stack_from_json(j@) is None,
            },
    {
        match j {
            Json::Obj(_) => {},
            _ => {
                return None;
            },
        }
        let random_code = match e_str(j, "randomCode") {
            Some(v) => v,
            None => {
                return None;
            },
        };
        let bar_code_content = match e_str(j, "barCodeContent") {
            Some(v) => v,
            None => {
                return None;
            },
        };
        let expiration_time = match e_str(j, "expirationTime") {
            Some(v) => v,
            None => {
                return None;
            },
        };
        let deal_stack = match e_opt_val(j, "dealStack") {
            Some(Some(x)) => match x {
                Json::Arr(items) => {
                    proof {
                        assert(*x matches Json::Arr(a) && a@ == items@);
                        assert(x@->Arr_0 =~= json_seq_view(*items));
                        assert(x@ == JsonV::Arr(json_seq_view(*items)));
                    }
                    match deal_stack_vec_from_json(items) {
                        Some(y) => Some(y),
                        None => {
                            return None;
                        },
                    }
                },
                _ => {
                    proof {
                        assert(!(x@ is Arr));
                    }
                    return None;
                },
            },
            Some(None) => None,
            None => {
                return None;
            },
        };
        Some(OfferDealStack { random_code, bar_code_content, expiration_time, deal_stack })
    }
}

/// Decoding an encoded value gives the value back.
pub proof fn lemma_offer_deal_stack_round_trip(v: OfferDealStackV)
    ensures
        offer_deal_stack_from_json(offer_deal_stack_to_json(v)) == Some(v),
{
    reveal_strlit("randomCode");
    reveal_strlit("barCodeContent");
    reveal_strlit("expirationTime");
    reveal_strlit("dealStack");
    reveal_with_fuel(crate::json::obj_lookup, 6);
    assert("randomCode"@ != "barCodeContent"@) by { assert("randomCode"@.len() != "barCodeContent"@.len()); }
    assert("randomCode"@ != "expirationTime"@) by { assert("randomCode"@.len() != "expirationTime"@.len()); }
    assert("barCodeContent"@ != "expirationTime"@) by { assert("barCodeContent"@[0] != "expirationTime"@[0]); }
    assert("randomCode"@ != "dealStack"@) by { assert("randomCode"@.len() != "dealStack"@.len()); }
    assert("barCodeContent"@ != "dealStack"@) by { assert("barCodeContent"@.len() != "dealStack"@.len()); }
    assert("expirationTime"@ != "dealStack"@) by { assert("expirationTime"@.len() != "dealStack"@.len()); }
    let j = offer_deal_stack_to_json(v);
    let fs = j->Obj_0;
    assert(f_str(fs, "randomCode"@) == Some(v.random_code));
    assert(f_str(fs, "barCodeContent"@) == Some(v.bar_code_content));
    assert(f_str(fs, "expirationTime"@) == Some(v.expiration_time));
    match v.deal_stack {
        Some(x) => {
            assert(f_opt_val(fs, "dealStack"@) == Some(Some(JsonV::Arr(deal_stack_items_json(x)))));
            lemma_deal_stack_items_round_trip(x);
        },
        None => {
            assert(f_opt_val(fs, "dealStack"@) == Some(None::<JsonV>));
        },
    }
}

/// The deal-stack envelope.
#[derive(Debug, PartialEq)]
pub struct OfferDealStackResponse {
    pub status: Status,
    pub response: Option<OfferDealStack>,
}

pub struct OfferDealStackResponseV {
    pub status: StatusV,
    pub response: Option<OfferDealStackV>,
}

impl View for OfferDealStackResponse {
    type V = OfferDealStackResponseV;

    open spec fn view(&self) -> OfferDealStackResponseV {
        OfferDealStackResponseV {
            status: self.status@,
            response: (match self.response { Some(x) => Some(x@), None => None }),
        }
    }
}

pub open spec fn offer_deal_stack_response_to_json(v: OfferDealStackResponseV) -> JsonV {
    JsonV::Obj(
        seq![
            ("status"@, status_to_json(v.status)),
            ("response"@, (match v.response { Some(x) => offer_deal_stack_to_json(x), None => JsonV::Null })),
        ],
    )
}

pub open spec fn offer_deal_stack_response_from_json(j: JsonV) -> Option<OfferDealStackResponseV> {
    match j {
        JsonV::Obj(fs) => match (
            (match f_val(fs, "status"@) { Some(x) => status_from_json(x), None => None }),
            (match f_opt_val(fs, "response"@) { Some(Some(x)) => (match offer_deal_stack_from_json(x) { Some(y) => Some(Some(y)), None => None }), Some(None) => Some(None), None => None }),
        ) {
            (Some(status), Some(response)) => Some(
                OfferDealStackResponseV { status, response },
            ),
            _ => None,
        },
        _ => None,
    }
}

impl OfferDealStackResponse {
    pub fn to_json(&self) -> (r: Json)
        ensures
            r@ == offer_deal_stack_response_to_json(self@),
    {
        let mut fs: Vec<(String, Json)> = Vec::new();
        fs.push(("status".to_owned(), self.status.to_json()));
        fs.push(("response".to_owned(), (match &self.response { Some(x) => x.to_json(), None => Json::Null })));
        let r = Json::Obj(fs);
        proof {
            reveal_with_fuel(crate::json::json_view, 2);
            assert(r@ matches JsonV::Obj(x));
            assert(r@->Obj_0[0] == ("status"@, status_to_json(self@.status)));
            assert(r@->Obj_0[1] == ("response"@, (match self@.response { Some(x) => offer_deal_stack_to_json(x), None => JsonV::Null })));
            assert(r@->Obj_0 =~= offer_deal_stack_response_to_json(self@)->Obj_0);
            assert(r@ == offer_deal_stack_response_to_json(self@));
        }
        r
    }

    pub fn from_json(j: &Json) -> (r: Option<OfferDealStackResponse>)
        ensures
            match r {
                Some(v) => offer_deal_stack_response_from_json(j@) == Some(v@),
                None => offer_deal_stack_response_from_json(j@) is None,
            },
    {
        match j {
            Json::Obj(_) => {},
            _ => {
                return None;
            },
        }
        let status = match j.get("status") {
            Some(x) => match Status::from_json(x) {
                Some(y) => y,
                None => {
                    return None;
                },
            },
            None => {
                return None;
            },
        };
        let response = match e_opt_val(j, "response") {
            Some(Some(x)) => match OfferDealStack::from_json(x) {
                Some(y) => Some(y),
                None => {
                    return None;
                },
            },
            Some(None) => None,
            None => {
                return None;
            },
        };
        Some(OfferDealStackResponse { status, response })
    }
}

/// Decoding an encoded value gives the value back.
pub proof fn lemma_offer_deal_stack_response_round_trip(v: OfferDealStackResponseV)
    ensures
        offer_deal_stack_response_from_json(offer_deal_stack_response_to_json(v)) == Some(v),
{
    reveal_strlit("status");
    reveal_strlit("response");
    reveal_with_fuel(crate::json::obj_lookup, 4);
    assert("status"@ != "response"@) by { assert("status"@.len() != "response"@.len()); }
    let j = offer_deal_stack_response_to_json(v);
    let fs = j->Obj_0;
    assert(f_val(fs, "status"@) == Some(status_to_json(v.status)));
    lemma_status_round_trip(v.status);
    match v.response {
        Some(x) => {
            assert(f_opt_val(fs, "response"@) == Some(Some(offer_deal_stack_to_json(x))));
            lemma_offer_deal_stack_round_trip(x);
        },
        None => {
            assert(f_opt_val(fs, "response"@) == Some(None::<JsonV>));
        },
    }
}

/// The token pair the login and refresh calls return.
#[derive(Debug, PartialEq)]
pub struct AccessTokenResponse {
    pub access_token: String,
    pub refresh_token: String,
}

pub struct AccessTokenResponseV {
    pub access_token: Seq<char>,
    pub refresh_token: Seq<char>,
}

impl View for AccessTokenResponse {
    type V = AccessTokenResponseV;

    open spec fn view(&self) -> AccessTokenResponseV {
        AccessTokenResponseV {
            access_token: self.access_token@,
            refresh_token: self.refresh_token@,
        }
    }
}

pub open spec fn access_token_response_to_json(v: AccessTokenResponseV) -> JsonV {
    JsonV::Obj(
        seq![
            ("accessToken"@, JsonV::Str(v.access_token)),
            ("refreshToken"@, JsonV::Str(v.refresh_token)),
        ],
    )
}

pub open spec fn access_token_response_from_json(j: JsonV) -> Option<AccessTokenResponseV> {
    match j {
        JsonV::Obj(fs) => match (
            f_str(fs, "accessToken"@),
            f_str(fs, "refreshToken"@),
        ) {
            (Some(access_token), Some(refresh_token)) => Some(
                AccessTokenResponseV { access_token, refresh_token },
            ),
            _ => None,
        },
        _ => None,
    }
}

impl AccessTokenResponse {
    pub fn to_json(&self) -> (r: Json)
        ensures
            r@ == access_token_response_to_json(self@),
    {
        let mut fs: Vec<(String, Json)> = Vec::new();
        fs.push(("accessToken".to_owned(), Json::Str(self.access_token.clone())));
        fs.push(("refreshToken".to_owned(), Json::Str(self.refresh_token.clone())));
        let r = Json::Obj(fs);
        proof {
            reveal_with_fuel(crate::json::json_view, 2);
            assert(r@ matches JsonV::Obj(x));
            assert(r@->Obj_0[0] == ("accessToken"@, JsonV::Str(self@.access_token)));
            assert(r@->Obj_0[1] == ("refreshToken"@, JsonV::Str(self@.refresh_token)));
            assert(r@->Obj_0 =~= access_token_response_to_json(self@)->Obj_0);
            assert(r@ == access_token_response_to_json(self@));
        }
        r
    }

    pub fn from_json(j: &Json) -> (r: Option<AccessTokenResponse>)
        ensures
            match r {
                Some(v) => access_token_response_from_json(j@) == Some(v@),
                None => access_token_response_from_json(j@) is None,
            },
    {
        match j {
            Json::Obj(_) => {},
            _ => {
                return None;
            },
        }
        let access_token = match e_str(j, "accessToken") {
            Some(v) => v,
            None => {
                return None;
            },
        };
        let refresh_token = match e_str(j, "refreshToken") {
            Some(v) => v,
            None => {
                return None;
            },
        };
        Some(AccessTokenResponse { access_token, refresh_token })
    }
}

/// Decoding an encoded value gives the value back.
pub proof fn lemma_access_token_response_round_trip(v: AccessTokenResponseV)
    ensures
        access_token_response_from_json(access_token_response_to_json(v)) == Some(v),
{
    reveal_strlit("accessToken");
    reveal_strlit("refreshToken");
    reveal_with_fuel(crate::json::obj_lookup, 4);
    assert("accessToken"@ != "refreshToken"@) by { assert("accessToken"@.len() != "refreshToken"@.len()); }
    let j = access_token_response_to_json(v);
    let fs = j->Obj_0;
    assert(f_str(fs, "accessToken"@) == Some(v.access_token));
    assert(f_str(fs, "refreshToken"@) == Some(v.refresh_token));
}

/// The bearer token the token exchange returns, with its lifetime.
#[derive(Debug, PartialEq)]
pub struct Token {
    pub token: String,
    pub expires: u32,
}

pub struct TokenV {
    pub token: Seq<char>,
    pub expires: int,
}

impl View for Token {
    type V = TokenV;

    open spec fn view(&self) -> TokenV {
        TokenV {
            token: self.token@,
            expires: self.expires as int,
        }
    }
}

pub open spec fn token_to_json(v: TokenV) -> JsonV {
    JsonV::Obj(
        seq![
            ("token"@, JsonV::Str(v.token)),
            ("expires"@, JsonV::Int(v.expires)),
        ],
    )
}

pub open spec fn token_from_json(j: JsonV) -> Option<TokenV> {
    match j {
        JsonV::Obj(fs) => match (
            f_str(fs, "token"@),
            f_u32(fs, "expires"@),
        ) {
            (Some(token), Some(expires)) => Some(
                TokenV { token, expires },
            ),
            _ => None,
        },
        _ => None,
    }
}

impl Token {
    pub fn to_json(&self) -> (r: Json)
        ensures
            r@ == token_to_json(self@),
    {
        let mut fs: Vec<(String, Json)> = Vec::new();
        fs.push(("token".to_owned(), Json::Str(self.token.clone())));
        fs.push(("expires".to_owned(), Json::Int(self.expires as i64)));
        let r = Json::Obj(fs);
        proof {
            reveal_with_fuel(crate::json::json_view, 2);
            assert(r@ matches JsonV::Obj(x));
            assert(r@->Obj_0[0] == ("token"@, JsonV::Str(self@.token)));
            assert(r@->Obj_0[1] == ("expires"@, JsonV::Int(self@.expires)));
            assert(r@->Obj_0 =~= token_to_json(self@)->Obj_0);
            assert(r@ == token_to_json(self@));
        }
        r
    }

    pub fn from_json(j: &Json) -> (r: Option<Token>)
        ensures
            match r {
                Some(v) => token_from_json(j@) == Some(v@),
                None => token_from_json(j@) is None,
            },
    {
        match j {
            Json::Obj(_) => {},
            _ => {
                return None;
            },
        }
        let token = match e_str(j, "token") {
            Some(v) => v,
            None => {
                return None;
            },
        };
        let expires = match e_u32(j, "expires") {
            Some(v) => v,
            None => {
                return None;
            },
        };
        Some(Token { token, expires })
    }
}

/// Decoding an encoded value gives the value back.
pub proof fn lemma_token_round_trip(v: TokenV)
    requires
        0 <= v.expires <= u32::MAX,
    ensures
        token_from_json(token_to_json(v)) == Some(v),
{
    reveal_strlit("token");
    reveal_strlit("expires");
    reveal_with_fuel(crate::json::obj_lookup, 4);
    assert("token"@ != "expires"@) by { assert("token"@.len() != "expires"@.len()); }
    let j = token_to_json(v);
    let fs = j->Obj_0;
    assert(f_str(fs, "token"@) == Some(v.token));
    assert(f_u32(fs, "expires"@) == Some(v.expires));
}

/// The token-exchange envelope.
#[derive(Debug, PartialEq)]
pub struct TokenResponse {
    pub status: Status,
    pub response: Token,
}

pub struct TokenResponseV {
    pub status: StatusV,
    pub response: TokenV,
}

impl View for TokenResponse {
    type V = TokenResponseV;

    open spec fn view(&self) -> TokenResponseV {
        TokenResponseV {
            status: self.status@,
            response: self.response@,
        }
    }
}

pub open spec fn token_response_to_json(v: TokenResponseV) -> JsonV {
    JsonV::Obj(
        seq![
            ("status"@, status_to_json(v.status)),
            ("response"@, token_to_json(v.response)),
        ],
    )
}

pub open spec fn token_response_from_json(j: JsonV) -> Option<TokenResponseV> {
    match j {
        JsonV::Obj(fs) => match (
            (match f_val(fs, "status"@) { Some(x) => status_from_json(x), None => None }),
            (match f_val(fs, "response"@) { Some(x) => token_from_json(x), None => None }),
        ) {
            (Some(status), Some(response)) => Some(
                TokenResponseV { status, response },
            ),
            _ => None,
        },
        _ => None,
    }
}

impl TokenResponse {
    pub fn to_json(&self) -> (r: Json)
        ensures
            r@ == token_response_to_json(self@),
    {
        let mut fs: Vec<(String, Json)> = Vec::new();
        fs.push(("status".to_owned(), self.status.to_json()));
        fs.push(("response".to_owned(), self.response.to_json()));
        let r = Json::Obj(fs);
        proof {
            reveal_with_fuel(crate::json::json_view, 2);
            assert(r@ matches JsonV::Obj(x));
            assert(r@->Obj_0[0] == ("status"@, status_to_json(self@.status)));
            assert(r@->Obj_0[1] == ("response"@, token_to_json(self@.response)));
            assert(r@->Obj_0 =~= token_response_to_json(self@)->Obj_0);
            assert(r@ == token_response_to_json(self@));
        }
        r
    }

    pub fn from_json(j: &Json) -> (r: Option<TokenResponse>)
        ensures
            match r {
                Some(v) => token_response_from_json(j@) == Some(v@),
                None => token_response_from_json(j@) is None,
            },
    {
        match j {
            Json::Obj(_) => {},
            _ => {
                return None;
            },
        }
        let status = match j.get("status") {
            Some(x) => match Status::from_json(x) {
                Some(y) => y,
                None => {
                    return None;
                },
            },
            None => {
                return None;
            },
        };
        let response = match j.get("response") {
            Some(x) => match Token::from_json(x) {
                Some(y) => y,
                None => {
                    return None;
                },
            },
            None => {
                return None;
            },
        };
        Some(TokenResponse { status, response })
    }
}

/// Decoding an encoded value gives the value back.
pub proof fn lemma_token_response_round_trip(v: TokenResponseV)
    requires
        0 <= v.response.expires <= u32::MAX,
    ensures
        token_response_from_json(token_response_to_json(v)) == Some(v),
{
    reveal_strlit("status");
    reveal_strlit("response");
    reveal_with_fuel(crate::json::obj_lookup, 4);
    assert("status"@ != "response"@) by { assert("status"@.len() != "response"@.len()); }
    let j = token_response_to_json(v);
    let fs = j->Obj_0;
    assert(f_val(fs, "status"@) == Some(status_to_json(v.status)));
    lemma_status_round_trip(v.status);
    assert(f_val(fs, "response"@) == Some(token_to_json(v.response)));
    lemma_token_round_trip(v.response);
}

/// The login envelope.
#[derive(Debug, PartialEq)]
pub struct LoginResponse {
    pub status: Status,
    pub response: AccessTokenResponse,
}

pub struct LoginResponseV {
    pub status: StatusV,
    pub response: AccessTokenResponseV,
}

impl View for LoginResponse {
    type V = LoginResponseV;

    open spec fn view(&self) -> LoginResponseV {
        LoginResponseV {
            status: self.status@,
            response: self.response@,
        }
    }
}

pub open spec fn login_response_to_json(v: LoginResponseV) -> JsonV {
    JsonV::Obj(
        seq![
            ("status"@, status_to_json(v.status)),
            ("response"@, access_token_response_to_json(v.response)),
        ],
    )
}

pub open spec fn login_response_from_json(j: JsonV) -> Option<LoginResponseV> {
    match j {
        JsonV::Obj(fs) => match (
            (match f_val(fs, "status"@) { Some(x) => status_from_json(x), None => None }),
            (match f_val(fs, "response"@) { Some(x) => access_token_response_from_json(x), None => None }),
        ) {
            (Some(status), Some(response)) => Some(
                LoginResponseV { status, response },
            ),
            _ => None,
        },
        _ => None,
    }
}

impl LoginResponse {
    pub fn to_json(&self) -> (r: Json)
        ensures
            r@ == login_response_to_json(self@),
    {
        let mut fs: Vec<(String, Json)> = Vec::new();
        fs.push(("status".to_owned(), self.status.to_json()));
        fs.push(("response".to_owned(), self.response.to_json()));
        let r = Json::Obj(fs);
        proof {
            reveal_with_fuel(crate::json::json_view, 2);
            assert(r@ matches JsonV::Obj(x));
            assert(r@->Obj_0[0] == ("status"@, status_to_json(self@.status)));
            assert(r@->Obj_0[1] == ("response"@, access_token_response_to_json(self@.response)));
            assert(r@->Obj_0 =~= login_response_to_json(self@)->Obj_0);
            assert(r@ == login_response_to_json(self@));
        }
        r
    }

    pub fn from_json(j: &Json) -> (r: Option<LoginResponse>)
        ensures
            match r {
                Some(v) => login_response_from_json(j@) == Some(v@),
                None => login_response_from_json(j@) is None,
            },
    {
        match j {
            Json::Obj(_) => {},
            _ => {
                return None;
            },
        }
        let status = match j.get("status") {
            Some(x) => match Status::from_json(x) {
                Some(y) => y,
                None => {
                    return None;
                },
            },
            None => {
                return None;
            },
        };
        let response = match j.get("response") {
            Some(x) => match AccessTokenResponse::from_json(x) {
                Some(y) => y,
                None => {
                    return None;
                },
            },
            None => {
                return None;
            },
        };
        Some(LoginResponse { status, response })
    }
}

/// Decoding an encoded value gives the value back.
pub proof fn lemma_login_response_round_trip(v: LoginResponseV)
    ensures
        login_response_from_json(login_response_to_json(v)) == Some(v),
{
    reveal_strlit("status");
    reveal_strlit("response");
    reveal_with_fuel(crate::json::obj_lookup, 4);
    assert("status"@ != "response"@) by { assert("status"@.len() != "response"@.len()); }
    let j = login_response_to_json(v);
    let fs = j->Obj_0;
    assert(f_val(fs, "status"@) == Some(status_to_json(v.status)));
    lemma_status_round_trip(v.status);
    assert(f_val(fs, "response"@) == Some(access_token_response_to_json(v.response)));
    lemma_access_token_response_round_trip(v.response);
}

/// The refresh envelope; the payload may be absent.
#[derive(Debug, PartialEq)]
pub struct LoginRefreshResponse {
    pub response: Option<AccessTokenResponse>,
    pub status: Status,
}

pub struct LoginRefreshResponseV {
    pub response: Option<AccessTokenResponseV>,
    pub status: StatusV,
}

impl View for LoginRefreshResponse {
    type V = LoginRefreshResponseV;

    open spec fn view(&self) -> LoginRefreshResponseV {
        LoginRefreshResponseV {
            response: (match self.response { Some(x) => Some(x@), None => None }),
            status: self.status@,
        }
    }
}

pub open spec fn login_refresh_response_to_json(v: LoginRefreshResponseV) -> JsonV {
    JsonV::Obj(
        seq![
            ("response"@, (match v.response { Some(x) => access_token_response_to_json(x), None => JsonV::Null })),
            ("status"@, status_to_json(v.status)),
        ],
    )
}

pub open spec fn login_refresh_response_from_json(j: JsonV) -> Option<LoginRefreshResponseV> {
    match j {
        JsonV::Obj(fs) => match (
            (match f_opt_val(fs, "response"@) { Some(Some(x)) => (match access_token_response_from_json(x) { Some(y) => Some(Some(y)), None => None }), Some(None) => Some(None), None => None }),
            (match f_val(fs, "status"@) { Some(x) => status_from_json(x), None => None }),
        ) {
            (Some(response), Some(status)) => Some(
                LoginRefreshResponseV { response, status },
            ),
            _ => None,
        },
        _ => None,
    }
}

impl LoginRefreshResponse {
    pub fn to_json(&self) -> (r: Json)
        ensures
            r@ == login_refresh_response_to_json(self@),
    {
        let mut fs: Vec<(String, Json)> = Vec::new();
        fs.push(("response".to_owned(), (match &self.response { Some(x) => x.to_json(), None => Json::Null })));
        fs.push(("status".to_owned(), self.status.to_json()));
        let r = Json::Obj(fs);
        proof {
            reveal_with_fuel(crate::json::json_view, 2);
            assert(r@ matches JsonV::Obj(x));
            assert(r@->Obj_0[0] == ("response"@, (match self@.response { Some(x) => access_token_response_to_json(x), None => JsonV::Null })));
            assert(r@->Obj_0[1] == ("status"@, status_to_json(self@.status)));
            assert(r@->Obj_0 =~= login_refresh_response_to_json(self@)->Obj_0);
            assert(r@ == login_refresh_response_to_json(self@));
        }
        r
    }

    pub fn from_json(j: &Json) -> (r: Option<LoginRefreshResponse>)
        ensures
            match r {
                Some(v) => login_refresh_response_from_json(j@) == Some(v@),
                None => login_refresh_response_from_json(j@) is None,
            },
    {
        match j {
            Json::Obj(_) => {},
            _ => {
                return None;
            },
        }
        let response = match e_opt_val(j, "response") {
            Some(Some(x)) => match AccessTokenResponse::from_json(x) {
                Some(y) => Some(y),
                None => {
                    return None;
                },
            },
            Some(None) => None,
            None => {
                return None;
            },
        };
        let status = match j.get("status") {
            Some(x) => match Status::from_json(x) {
                Some(y) => y,
                None => {
                    return None;
                },
            },
            None => {
                return None;
            },
        };
        Some(LoginRefreshResponse { response, status })
    }
}

/// Decoding an encoded value gives the value back.
pub proof fn lemma_login_refresh_response_round_trip(v: LoginRefreshResponseV)
    ensures
        login_refresh_response_from_json(login_refresh_response_to_json(v)) == Some(v),
{
    reveal_strlit("response");
    reveal_strlit("status");
    reveal_with_fuel(crate::json::obj_lookup, 4);
    assert("response"@ != "status"@) by { assert("response"@.len() != "status"@.len()); }
    let j = login_refresh_response_to_json(v);
    let fs = j->Obj_0;
    match v.response {
        Some(x) => {
            assert(f_opt_val(fs, "response"@) == Some(Some(access_token_response_to_json(x))));
            lemma_access_token_response_round_trip(x);
        },
        None => {
            assert(f_opt_val(fs, "response"@) == Some(None::<JsonV>));
        },
    }
    assert(f_val(fs, "status"@) == Some(status_to_json(v.status)));
    lemma_status_round_trip(v.status);
}

/// The loyalty point balances.
#[derive(Debug, PartialEq)]
pub struct PointInformationResponse {
    pub total_points: i64,
    pub life_time_points: i64,
}

pub struct PointInformationResponseV {
    pub total_points: int,
    pub life_time_points: int,
}

impl View for PointInformationResponse {
    type V = PointInformationResponseV;

    open spec fn view(&self) -> PointInformationResponseV {
        PointInformationResponseV {
            total_points: self.total_points as int,
            life_time_points: self.life_time_points as int,
        }
    }
}

pub open spec fn point_information_response_to_json(v: PointInformationResponseV) -> JsonV {
    JsonV::Obj(
        seq![
            ("totalPoints"@, JsonV::Int(v.total_points)),
            ("lifeTimePoints"@, JsonV::Int(v.life_time_points)),
        ],
    )
}

pub open spec fn point_information_response_from_json(j: JsonV) -> Option<PointInformationResponseV> {
    match j {
        JsonV::Obj(fs) => match (
            f_i64(fs, "totalPoints"@),
            f_i64(fs, "lifeTimePoints"@),
        ) {
            (Some(total_points), Some(life_time_points)) => Some(
                PointInformationResponseV { total_points, life_time_points },
            ),
            _ => None,
        },
        _ => None,
    }
}

impl PointInformationResponse {
    pub fn to_json(&self) -> (r: Json)
        ensures
            r@ == point_information_response_to_json(self@),
    {
        let mut fs: Vec<(String, Json)> = Vec::new();
        fs.push(("totalPoints".to_owned(), Json::Int(self.total_points)));
        fs.push(("lifeTimePoints".to_owned(), Json::Int(self.life_time_points)));
        let r = Json::Obj(fs);
        proof {
            reveal_with_fuel(crate::json::json_view, 2);
            assert(r@ matches JsonV::Obj(x));
            assert(r@->Obj_0[0] == ("totalPoints"@, JsonV::Int(self@.total_points)));
            assert(r@->Obj_0[1] == ("lifeTimePoints"@, JsonV::Int(self@.life_time_points)));
            assert(r@->Obj_0 =~= point_information_response_to_json(self@)->Obj_0);
            assert(r@ == point_information_response_to_json(self@));
        }
        r
    }

    pub fn from_json(j: &Json) -> (r: Option<PointInformationResponse>)
        ensures
            match r {
                Some(v) => point_information_response_from_json(j@) == Some(v@),
                None => point_information_response_from_json(j@) is None,
            },
    {
        match j {
            Json::Obj(_) => {},
            _ => {
                return None;
            },
        }
        let total_points = match e_i64(j, "totalPoints") {
            Some(v) => v,
            None => {
                return None;
            },
        };
        let life_time_points = match e_i64(j, "lifeTimePoints") {
            Some(v) => v,
            None => {
                return None;
            },
        };
        Some(PointInformationResponse { total_points, life_time_points })
    }
}

/// Decoding an encoded value gives the value back.
pub proof fn lemma_point_information_response_round_trip(v: PointInformationResponseV)
    ensures
        point_information_response_from_json(point_information_response_to_json(v)) == Some(v),
{
    reveal_strlit("totalPoints");
    reveal_strlit("lifeTimePoints");
    reveal_with_fuel(crate::json::obj_lookup, 4);
    assert("totalPoints"@ != "lifeTimePoints"@) by { assert("totalPoints"@.len() != "lifeTimePoints"@.len()); }
    let j = point_information_response_to_json(v);
    let fs = j->Obj_0;
    assert(f_i64(fs, "totalPoints"@) == Some(v.total_points));
    assert(f_i64(fs, "lifeTimePoints"@) == Some(v.life_time_points));
}

/// The loyalty points envelope.
#[derive(Debug, PartialEq)]
pub struct CustomerPointResponse {
    pub status: Status,
    pub response: PointInformationResponse,
}

pub struct CustomerPointResponseV {
    pub status: StatusV,
    pub response: PointInformationResponseV,
}

impl View for CustomerPointResponse {
    type V = CustomerPointResponseV;

    open spec fn view(&self) -> CustomerPointResponseV {
        CustomerPointResponseV {
            status: self.status@,
            response: self.response@,
        }
    }
}

pub open spec fn customer_point_response_to_json(v: CustomerPointResponseV) -> JsonV {
    JsonV::Obj(
        seq![
            ("status"@, status_to_json(v.status)),
            ("response"@, point_information_response_to_json(v.response)),
        ],
    )
}

pub open spec fn customer_point_response_from_json(j: JsonV) -> Option<CustomerPointResponseV> {
    match j {
        JsonV::Obj(fs) => match (
            (match f_val(fs, "status"@) { Some(x) => status_from_json(x), None => None }),
            (match f_val(fs, "response"@) { Some(x) => point_information_response_from_json(x), None => None }),
        ) {
            (Some(status), Some(response)) => Some(
                CustomerPointResponseV { status, response },
            ),
            _ => None,
        },
        _ => None,
    }
}

impl CustomerPointResponse {
    pub fn to_json(&self) -> (r: Json)
        ensures
            r@ == customer_point_response_to_json(self@),
    {
        let mut fs: Vec<(String, Json)> = Vec::new();
        fs.push(("status".to_owned(), self.status.to_json()));
        fs.push(("response".to_owned(), self.response.to_json()));
        let r = Json::Obj(fs);
        proof {
            reveal_with_fuel(crate::json::json_view, 2);
            assert(r@ matches JsonV::Obj(x));
            assert(r@->Obj_0[0] == ("status"@, status_to_json(self@.status)));
            assert(r@->Obj_0[1] == ("response"@, point_information_response_to_json(self@.response)));
            assert(r@->Obj_0 =~= customer_point_response_to_json(self@)->Obj_0);
            assert(r@ == customer_point_response_to_json(self@));
        }
        r
    }

    pub fn from_json(j: &Json) -> (r: Option<CustomerPointResponse>)
        ensures
            match r {
                Some(v) => customer_point_response_from_json(j@) == Some(v@),
                None => customer_point_response_from_json(j@) is None,
            },
    {
        match j {
            Json::Obj(_) => {},
            _ => {
                return None;
            },
        }
        let status = match j.get("status") {
            Some(x) => match Status::from_json(x) {
                Some(y) => y,
                None => {
                    return None;
                },
            },
            None => {
                return None;
            },
        };
        let response = match j.get("response") {
            Some(x) => match PointInformationResponse::from_json(x) {
                Some(y) => y,
                None => {
                    return None;
                },
            },
            None => {
                return None;
            },
        };
        Some(CustomerPointResponse { status, response })
    }
}

/// Decoding an encoded value gives the value back.
pub proof fn lemma_customer_point_response_round_trip(v: CustomerPointResponseV)
    ensures
        customer_point_response_from_json(customer_point_response_to_json(v)) == Some(v),
{
    reveal_strlit("status");
    reveal_strlit("response");
    reveal_with_fuel(crate::json::obj_lookup, 4);
    assert("status"@ != "response"@) by { assert("status"@.len() != "response"@.len()); }
    let j = customer_point_response_to_json(v);
    let fs = j->Obj_0;
    assert(f_val(fs, "status"@) == Some(status_to_json(v.status)));
    lemma_status_round_trip(v.status);
    assert(f_val(fs, "response"@) == Some(point_information_response_to_json(v.response)));
    lemma_point_information_response_round_trip(v.response);
}

/// Decodes one token-exchange reply. The body must parse as JSON and match the
/// envelope schema; a failure of either kind is a deserialization error,
/// kept apart from transport failures. The HTTP status is carried through
/// untouched: a non-2xx reply with a well-shaped body still decodes, and
/// reading the vendor status is the caller's business.
pub fn decode_token_response(status: u16, headers: Vec<(String, String)>, body: &str) -> (r: Result<
    ClientResponse<TokenResponse>,
    ClientError,
>)
    ensures
        match r {
            Ok(resp) => resp.status == status && resp.headers == headers && (json_of_text(body@)
                matches Some(jv) && token_response_from_json(jv) == Some(resp.body@)),
            Err(e) => e == ClientError::Deserialization && (match json_of_text(body@) {
                Some(jv) => token_response_from_json(jv) is None,
                None => true,
            }),
        },
{
    let parsed = match Json::parse_text(body) {
        Some(j) => j,
        None => {
            return Err(ClientError::Deserialization);
        },
    };
    let decoded = match TokenResponse::from_json(&parsed) {
        Some(v) => v,
        None => {
            return Err(ClientError::Deserialization);
        },
    };
    Ok(ClientResponse { status, headers, body: decoded })
}

/// Decodes one login reply. The body must parse as JSON and match the
/// envelope schema; a failure of either kind is a deserialization error,
/// kept apart from transport failures. The HTTP status is carried through
/// untouched: a non-2xx reply with a well-shaped body still decodes, and
/// reading the vendor status is the caller's business.
pub fn decode_login_response(status: u16, headers: Vec<(String, String)>, body: &str) -> (r: Result<
    ClientResponse<LoginResponse>,
    ClientError,
>)
    ensures
        match r {
            Ok(resp) => resp.status == status && resp.headers == headers && (json_of_text(body@)
                matches Some(jv) && login_response_from_json(jv) == Some(resp.body@)),
            Err(e) => e == ClientError::Deserialization && (match json_of_text(body@) {
                Some(jv) => login_response_from_json(jv) is None,
                None => true,
            }),
        },
{
    let parsed = match Json::parse_text(body) {
        Some(j) => j,
        None => {
            return Err(ClientError::Deserialization);
        },
    };
    let decoded = match LoginResponse::from_json(&parsed) {
        Some(v) => v,
        None => {
            return Err(ClientError::Deserialization);
        },
    };
    Ok(ClientResponse { status, headers, body: decoded })
}

/// Decodes one offers reply. The body must parse as JSON and match the
/// envelope schema; a failure of either kind is a deserialization error,
/// kept apart from transport failures. The HTTP status is carried through
/// untouched: a non-2xx reply with a well-shaped body still decodes, and
/// reading the vendor status is the caller's business.
pub fn decode_offer_response(status: u16, headers: Vec<(String, String)>, body: &str) -> (r: Result<
    ClientResponse<OfferResponse>,
    ClientError,
>)
    ensures
        match r {
            Ok(resp) => resp.status == status && resp.headers == headers && (json_of_text(body@)
                matches Some(jv) && offer_response_from_json(jv) == Some(resp.body@)),
            Err(e) => e == ClientError::Deserialization && (match json_of_text(body@) {
                Some(jv) => offer_response_from_json(jv) is None,
                None => true,
            }),
        },
{
    let parsed = match Json::parse_text(body) {
        Some(j) => j,
        None => {
            return Err(ClientError::Deserialization);
        },
    };
    let decoded = match OfferResponse::from_json(&parsed) {
        Some(v) => v,
        None => {
            return Err(ClientError::Deserialization);
        },
    };
    Ok(ClientResponse { status, headers, body: decoded })
}

/// Decodes one deal-stack reply. The body must parse as JSON and match the
/// envelope schema; a failure of either kind is a deserialization error,
/// kept apart from transport failures. The HTTP status is carried through
/// untouched: a non-2xx reply with a well-shaped body still decodes, and
/// reading the vendor status is the caller's business.
pub fn decode_offer_dealstack_response(status: u16, headers: Vec<(String, String)>, body: &str) -> (r: Result<
    ClientResponse<OfferDealStackResponse>,
    ClientError,
>)
    ensures
        match r {
            Ok(resp) => resp.status == status && resp.headers == headers && (json_of_text(body@)
                matches Some(jv) && offer_deal_stack_response_from_json(jv) == Some(resp.body@)),
            Err(e) => e == ClientError::Deserialization && (match json_of_text(body@) {
                Some(jv) => offer_deal_stack_response_from_json(jv) is None,
                None => true,
            }),
        },
{
    let parsed = match Json::parse_text(body) {
        Some(j) => j,
        None => {
            return Err(ClientError::Deserialization);
        },
    };
    let decoded = match OfferDealStackResponse::from_json(&parsed) {
        Some(v) => v,
        None => {
            return Err(ClientError::Deserialization);
        },
    };
    Ok(ClientResponse { status, headers, body: decoded })
}

/// Decodes one login-refresh reply. The body must parse as JSON and match the
/// envelope schema; a failure of either kind is a deserialization error,
/// kept apart from transport failures. The HTTP status is carried through
/// untouched: a non-2xx reply with a well-shaped body still decodes, and
/// reading the vendor status is the caller's business.
pub fn decode_login_refresh_response(status: u16, headers: Vec<(String, String)>, body: &str) -> (r: Result<
    ClientResponse<LoginRefreshResponse>,
    ClientError,
>)
    ensures
        match r {
            Ok(resp) => resp.status == status && resp.headers == headers && (json_of_text(body@)
                matches Some(jv) && login_refresh_response_from_json(jv) == Some(resp.body@)),
            Err(e) => e == ClientError::Deserialization && (match json_of_text(body@) {
                Some(jv) => login_refresh_response_from_json(jv) is None,
                None => true,
            }),
        },
{
    let parsed = match Json::parse_text(body) {
        Some(j) => j,
        None => {
            return Err(ClientError::Deserialization);
        },
    };
    let decoded = match LoginRefreshResponse::from_json(&parsed) {
        Some(v) => v,
        None => {
            return Err(ClientError::Deserialization);
        },
    };
    Ok(ClientResponse { status, headers, body: decoded })
}

/// Decodes one loyalty-points reply. The body must parse as JSON and match the
/// envelope schema; a failure of either kind is a deserialization error,
/// kept apart from transport failures. The HTTP status is carried through
/// untouched: a non-2xx reply with a well-shaped body still decodes, and
/// reading the vendor status is the caller's business.
pub fn decode_customer_point_response(status: u16, headers: Vec<(String, String)>, body: &str) -> (r: Result<
    ClientResponse<CustomerPointResponse>,
    ClientError,
>)
    ensures
        match r {
            Ok(resp) => resp.status == status && resp.headers == headers && (json_of_text(body@)
                matches Some(jv) && customer_point_response_from_json(jv) == Some(resp.body@)),
            Err(e) => e == ClientError::Deserialization && (match json_of_text(body@) {
                Some(jv) => customer_point_response_from_json(jv) is None,
                None => true,
            }),
        },
{
    let parsed = match Json::parse_text(body) {
        Some(j) => j,
        None => {
            return Err(ClientError::Deserialization);
        },
    };
    let decoded = match CustomerPointResponse::from_json(&parsed) {
        Some(v) => v,
        None => {
            return Err(ClientError::Deserialization);
        },
    };
    Ok(ClientResponse { status, headers, body: decoded })
}

/// Serializing a populated token-exchange envelope to its JSON text and reading it
/// back reproduces an equal structure, optional members included.
pub proof fn lemma_token_response_text_round_trip(v: TokenResponseV)
    requires
        0 <= v.response.expires <= u32::MAX,
    ensures
        token_response_from_json(token_response_to_json(v)) == Some(v),
        wf_json(token_response_to_json(v)) ==> {
            &&& json_of_text(text_of(token_response_to_json(v))) == Some(token_response_to_json(v))
            &&& (match json_of_text(text_of(token_response_to_json(v))) {
                Some(jv) => token_response_from_json(jv) == Some(v),
                None => false,
            })
        },
{
    lemma_token_response_round_trip(v);
    if wf_json(token_response_to_json(v)) {
        crate::text::lemma_text_round_trip(token_response_to_json(v));
    }
}

/// Serializing a populated login envelope to its JSON text and reading it
/// back reproduces an equal structure, optional members included.
pub proof fn lemma_login_response_text_round_trip(v: LoginResponseV)
    ensures
        login_response_from_json(login_response_to_json(v)) == Some(v),
        wf_json(login_response_to_json(v)) ==> {
            &&& json_of_text(text_of(login_response_to_json(v))) == Some(login_response_to_json(v))
            &&& (match json_of_text(text_of(login_response_to_json(v))) {
                Some(jv) => login_response_from_json(jv) == Some(v),
                None => false,
            })
        },
{
    lemma_login_response_round_trip(v);
    if wf_json(login_response_to_json(v)) {
        crate::text::lemma_text_round_trip(login_response_to_json(v));
    }
}

/// Serializing a populated offers envelope to its JSON text and reading it
/// back reproduces an equal structure, optional members included.
pub proof fn lemma_offer_response_text_round_trip(v: OfferResponseV)
    ensures
        offer_response_from_json(offer_response_to_json(v)) == Some(v),
        wf_json(offer_response_to_json(v)) ==> {
            &&& json_of_text(text_of(offer_response_to_json(v))) == Some(offer_response_to_json(v))
            &&& (match json_of_text(text_of(offer_response_to_json(v))) {
                Some(jv) => offer_response_from_json(jv) == Some(v),
                None => false,
            })
        },
{
    lemma_offer_response_round_trip(v);
    if wf_json(offer_response_to_json(v)) {
        crate::text::lemma_text_round_trip(offer_response_to_json(v));
    }
}

/// Serializing a populated deal-stack envelope to its JSON text and reading it
/// back reproduces an equal structure, optional members included.
pub proof fn lemma_offer_deal_stack_response_text_round_trip(v: OfferDealStackResponseV)
    ensures
        offer_deal_stack_response_from_json(offer_deal_stack_response_to_json(v)) == Some(v),
        wf_json(offer_deal_stack_response_to_json(v)) ==> {
            &&& json_of_text(text_of(offer_deal_stack_response_to_json(v))) == Some(offer_deal_stack_response_to_json(v))
            &&& (match json_of_text(text_of(offer_deal_stack_response_to_json(v))) {
                Some(jv) => offer_deal_stack_response_from_json(jv) == Some(v),
                None => false,
            })
        },
{
    lemma_offer_deal_stack_response_round_trip(v);
    if wf_json(offer_deal_stack_response_to_json(v)) {
        crate::text::lemma_text_round_trip(offer_deal_stack_response_to_json(v));
    }
}

/// Serializing a populated login-refresh envelope to its JSON text and reading it
/// back reproduces an equal structure, optional members included.
pub proof fn lemma_login_refresh_response_text_round_trip(v: LoginRefreshResponseV)
    ensures
        login_refresh_response_from_json(login_refresh_response_to_json(v)) == Some(v),
        wf_json(login_refresh_response_to_json(v)) ==> {
            &&& json_of_text(text_of(login_refresh_response_to_json(v))) == Some(login_refresh_response_to_json(v))
            &&& (match json_of_text(text_of(login_refresh_response_to_json(v))) {
                Some(jv) => login_refresh_response_from_json(jv) == Some(v),
                None => false,
            })
        },
{
    lemma_login_refresh_response_round_trip(v);
    if wf_json(login_refresh_response_to_json(v)) {
        crate::text::lemma_text_round_trip(login_refresh_response_to_json(v));
    }
}

/// Serializing a populated loyalty-points envelope to its JSON text and reading it
/// back reproduces an equal structure, optional members included.
pub proof fn lemma_customer_point_response_text_round_trip(v: CustomerPointResponseV)
    ensures
        customer_point_response_from_json(customer_point_response_to_json(v)) == Some(v),
        wf_json(customer_point_response_to_json(v)) ==> {
            &&& json_of_text(text_of(customer_point_response_to_json(v))) == Some(customer_point_response_to_json(v))
            &&& (match json_of_text(text_of(customer_point_response_to_json(v))) {
                Some(jv) => customer_point_response_from_json(jv) == Some(v),
                None => false,
            })
        },
{
    lemma_customer_point_response_round_trip(v);
    if wf_json(customer_point_response_to_json(v)) {
        crate::text::lemma_text_round_trip(customer_point_response_to_json(v));
    }
}

// ---------------------------------------------------------------------------
// Further schema records: shapes of the restaurant and catalog replies that
// the surrounding application decodes (their envelopes carry
// floating-point fields, which this crate does not hold).
// ---------------------------------------------------------------------------
#[derive(Debug, PartialEq)]
pub struct Address {
    pub address_line1: String,
    pub city_town: String,
    pub country: String,
    pub postal_zip: Option<String>,
}

#[derive(Debug, PartialEq)]
pub struct Service {
    pub end_time: String,
    pub is_open: bool,
    pub service_name: String,
    pub start_time: String,
}

#[derive(Debug, PartialEq)]
pub struct WeekOpeningHour {
    pub services: Vec<Service>,
    pub day_of_week_id: i64,
}

#[derive(Debug, PartialEq)]
pub struct FrequencyOfferInfo {
    pub total_punch: i64,
}

#[derive(Debug, PartialEq)]
pub struct Category {
    pub display_category_id: i64,
    pub display_order: i64,
    pub display_size_selection: i64,
}

#[derive(Debug, PartialEq)]
pub struct Dimension {
    pub size_code_id: i64,
    pub product_code: i64,
    pub show_size_to_customer: bool,
}

#[derive(Debug, PartialEq)]
pub struct TimeRestriction {
    pub from_time: String,
    pub to_time: String,
}

#[derive(Debug, PartialEq)]
pub struct Pod {
    pub sale_type_id: i64,
    pub type_label: String,
}

#[derive(Debug, PartialEq)]
pub struct Name {
    pub language_id: String,
    pub short_name: String,
    pub long_name: String,
    pub name: String,
}

#[derive(Debug, PartialEq)]
pub struct Names {
    pub product_code: i64,
    pub is_valid: bool,
    pub names: Vec<Name>,
}

#[derive(Debug, PartialEq)]
pub struct Availability {
    pub product_code: i64,
}

#[derive(Debug, PartialEq)]
pub struct Technology {
    pub key: String,
}

#[derive(Debug, PartialEq)]
pub struct DigitalService {
    pub key: String,
    pub technologies: Vec<Technology>,
}

#[derive(Debug, PartialEq)]
pub struct PointsOfDistribution {
    pub digital_services: Vec<DigitalService>,
    pub location_id: i64,
    pub pod: i64,
}

#[derive(Debug, PartialEq)]
pub struct AutoBagSaleInformation {
    pub bag_choice_product_code: i64,
    pub bag_dummy_product_code: i64,
    pub bag_product_code: i64,
    pub enabled: bool,
    pub no_bag_product_code: i64,
}

#[derive(Debug, PartialEq)]
pub struct StoreMenuTypeCalendar {
    pub end_time: String,
    pub menu_type_id: i64,
    pub start_time: String,
    pub week_day: i64,
}

#[derive(Debug, PartialEq)]
pub struct Area {
    pub area_type: String,
    pub capacity: String,
}

#[derive(Debug, PartialEq)]
pub struct Contact {
    pub title: String,
    pub name: String,
}

#[derive(Debug, PartialEq)]
pub struct RestaurantNutrition {
    pub energy_unit: String,
    pub customer_self_pour: bool,
    pub recalculate_energy_on_grill: bool,
}

#[derive(Debug, PartialEq)]
pub struct OfferBucket {
    pub offer_bucket: String,
    pub limit: i64,
}

#[derive(Debug, PartialEq)]
pub struct OfferConfiguration {
    pub enable_multiple_offers: bool,
    pub offer_buckets: Vec<OfferBucket>,
}

pub struct StoreType {
}

#[derive(Debug, PartialEq)]
pub struct ServicePayment {
    pub service_id: i64,
    pub sale_type_eat_in: bool,
    pub sale_type_other: bool,
    pub sale_type_take_out: bool,
    pub payment_methods: Vec<i64>,
}

#[derive(Debug, PartialEq)]
pub struct GeneralStatus {
    pub start_date: String,
    pub status: i64,
}

#[derive(Debug, PartialEq)]
pub struct AvailableMenuProducts {
    pub n1: Vec<i64>,
    pub n2: Vec<i64>,
    pub n3: Vec<i64>,
}

} // verus!
