//! The decisions of the Qt settings backend: what it reads out of each setting, which
//! new value a user action sends, and which device a MAC address picks.
use vstd::prelude::*;
use vstd::string::StringSliceAdditionalSpecFns;
use vstd::utf8::encode_utf8;

use crate::settings::{
    label_for_category, label_for_setting, lemma_setting_id_names_distinct, spec_category_id_name, spec_label_for_category,
    spec_label_for_setting, spec_setting_id_name, CategoryId, Range, Select, Setting, SettingId, Value,
    ValueView,
};
use crate::tray::TrayCommand;
use crate::text::{
    clone_strings, position_of, spec_is_first_position, spec_opt_string, spec_strings,
};

verus! {

/// The translated text of an information setting.
pub open spec fn spec_information_value(setting: Option<Setting>) -> Option<Seq<char>> {
    match setting {
        Some(Setting::Information { translated_value, .. }) => Some(translated_value@),
        _ => None,
    }
}

/// The translated text of an information setting; nothing for any other setting.
pub fn information_value(setting: &Option<Setting>) -> (result: Option<String>)
    ensures
        spec_opt_string(result) == spec_information_value(*setting),
{
    match setting {
        Some(Setting::Information { translated_value, .. }) => Some(translated_value.clone()),
        _ => None,
    }
}

/// The selected option of a select-style setting.
pub open spec fn spec_current_select_value(setting: Option<Setting>) -> Option<Seq<char>> {
    match setting {
        Some(Setting::Select { value, .. }) => Some(value@),
        Some(Setting::OptionalSelect { value, .. }) => spec_opt_string(value),
        Some(Setting::ModifiableSelect { value, .. }) => spec_opt_string(value),
        Some(Setting::PresetEqualizerProfileSelect { value, .. }) => spec_opt_string(value),
        _ => None,
    }
}

/// The selected option of a select-style setting; nothing when none is selected or the
/// setting is of another kind.
pub fn current_select_value(setting: &Option<Setting>) -> (result: Option<String>)
    ensures
        spec_opt_string(result) == spec_current_select_value(*setting),
{
    match setting {
        Some(Setting::Select { value, .. }) => Some(value.clone()),
        Some(Setting::OptionalSelect { value, .. }) => value.clone(),
        Some(Setting::ModifiableSelect { value, .. }) => value.clone(),
        Some(Setting::PresetEqualizerProfileSelect { value, .. }) => value.clone(),
        _ => None,
    }
}

/// Whether a setting is a toggle that is on.
pub open spec fn spec_toggle_value(setting: Option<Setting>) -> bool {
    match setting {
        Some(Setting::Toggle { value }) => value,
        _ => false,
    }
}

/// Whether a setting is a toggle that is on; false for any other setting.
pub fn toggle_value(setting: &Option<Setting>) -> (result: bool)
    ensures
        result == spec_toggle_value(*setting),
{
    match setting {
        Some(Setting::Toggle { value }) => *value,
        _ => false,
    }
}

/// `(value, start, end)` of an integer range setting.
pub open spec fn spec_range_info(setting: Option<Setting>) -> (i32, i32, i32) {
    match setting {
        Some(Setting::I32Range { setting, value }) => (value, setting.start, setting.end),
        _ => (0, 0, 0),
    }
}

/// `(value, start, end)` of an integer range setting, or zeroes for any other setting.
pub fn range_info(setting: &Option<Setting>) -> (result: (i32, i32, i32))
    ensures
        result == spec_range_info(*setting),
{
    match setting {
        Some(Setting::I32Range { setting, value }) => (*value, setting.start, setting.end),
        _ => (0, 0, 0),
    }
}

/// The choices of a select-style setting.
pub open spec fn spec_select_of(setting: Option<Setting>) -> Option<Select> {
    match setting {
        Some(Setting::Select { setting, .. }) => Some(setting),
        Some(Setting::OptionalSelect { setting, .. }) => Some(setting),
        Some(Setting::ModifiableSelect { setting, .. }) => Some(setting),
        Some(Setting::PresetEqualizerProfileSelect { select, .. }) => Some(select),
        _ => None,
    }
}

/// The choices of a select-style setting, borrowed.
fn select_of(setting: &Option<Setting>) -> (result: Option<&Select>)
    ensures
        match result {
            Some(select) => spec_select_of(*setting) == Some(*select),
            None => spec_select_of(*setting) is None,
        },
{
    match setting {
        Some(Setting::Select { setting, .. }) => Some(setting),
        Some(Setting::OptionalSelect { setting, .. }) => Some(setting),
        Some(Setting::ModifiableSelect { setting, .. }) => Some(setting),
        Some(Setting::PresetEqualizerProfileSelect { select, .. }) => Some(select),
        _ => None,
    }
}

/// The display labels of a select-style setting; empty for any other setting.
pub open spec fn spec_select_options(setting: Option<Setting>) -> Seq<Seq<char>> {
    match spec_select_of(setting) {
        Some(select) => spec_strings(select.localized_options@),
        None => Seq::empty(),
    }
}

/// The display labels of a select-style setting.
pub fn select_options(setting: &Option<Setting>) -> (result: Vec<String>)
    ensures
        spec_strings(result@) == spec_select_options(*setting),
{
    match select_of(setting) {
        Some(select) => clone_strings(&select.localized_options),
        None => {
            let result: Vec<String> = Vec::new();
            assert(spec_strings(result@) =~= Seq::<Seq<char>>::empty());
            result
        },
    }
}

/// The position of the selected option of a select-style setting among its raw
/// options, as an `i32`; `-1` when nothing is selected, the value is not an option, or
/// the setting is of another kind.
pub open spec fn spec_select_index(setting: Option<Setting>, result: i32) -> bool {
    match (spec_select_of(setting), spec_current_select_value(setting)) {
        (Some(select), Some(value)) => {
            ||| exists|position: usize|
                spec_is_first_position(spec_strings(select.options@), value, Some(position))
                    && result == position as i32
            ||| spec_is_first_position(spec_strings(select.options@), value, None) && result
                == -1
        },
        _ => result == -1,
    }
}

/// The position of the selected option, or `-1`.
pub fn select_index(setting: &Option<Setting>) -> (result: i32)
    ensures
        spec_select_index(*setting, result),
{
    let select = match select_of(setting) {
        Some(select) => select,
        None => {
            return -1;
        },
    };
    let value = match current_select_value(setting) {
        Some(value) => value,
        None => {
            return -1;
        },
    };
    match position_of(&select.options, &value) {
        Some(position) => position as i32,
        None => -1,
    }
}

/// The value that selects the option `value` of a select-style setting: a plain string
/// for a select that always has a value, an optional string (empty meaning none) for the
/// others.
pub open spec fn spec_select_value(setting: Option<Setting>, value: Seq<char>) -> Option<
    ValueView,
> {
    match setting {
        Some(Setting::Select { .. }) => Some(ValueView::String(value)),
        Some(Setting::OptionalSelect { .. }) | Some(Setting::ModifiableSelect { .. }) | Some(
            Setting::PresetEqualizerProfileSelect { .. },
        ) => if value.len() == 0 {
            Some(ValueView::OptionalString(None))
        } else {
            Some(ValueView::OptionalString(Some(value)))
        },
        _ => None,
    }
}

/// The view of an optional value.
pub open spec fn spec_opt_value(value: Option<Value>) -> Option<ValueView> {
    match value {
        Some(value) => Some(value@),
        None => None,
    }
}

/// The value that selects the option `value`; nothing when the setting is not a select.
pub fn select_value(setting: &Option<Setting>, value: String) -> (result: Option<Value>)
    ensures
        spec_opt_value(result) == spec_select_value(*setting, value@),
{
    match setting {
        Some(Setting::Select { .. }) => Some(Value::String(value)),
        Some(Setting::OptionalSelect { .. }) | Some(Setting::ModifiableSelect { .. }) | Some(
            Setting::PresetEqualizerProfileSelect { .. },
        ) => {
            if value.as_str().is_empty() {
                Some(Value::OptionalString(None))
            } else {
                Some(Value::OptionalString(Some(value)))
            }
        },
        _ => None,
    }
}

/// The value that selects the raw option at display position `index`; nothing for a
/// negative index, one past the options, or a setting that is not a select.
pub open spec fn spec_select_value_by_index(setting: Option<Setting>, index: i32) -> Option<
    ValueView,
> {
    match spec_select_of(setting) {
        Some(select) => if 0 <= index < select.options@.len() {
            spec_select_value(setting, select.options@[index as int]@)
        } else {
            None
        },
        None => None,
    }
}

/// The value that selects the option at display position `index`.
pub fn select_value_by_index(setting: &Option<Setting>, index: i32) -> (result: Option<Value>)
    ensures
        spec_opt_value(result) == spec_select_value_by_index(*setting, index),
{
    let select = match select_of(setting) {
        Some(select) => select,
        None => {
            return None;
        },
    };
    if index < 0 {
        return None;
    }
    let position: usize = index as usize;
    if position >= select.options.len() {
        return None;
    }
    let raw = select.options[position].clone();
    select_value(setting, raw)
}

/// One row of the dual connections device picker.
#[derive(Debug, Clone)]
pub struct DualConnectionEntry {
    pub mac: String,
    pub name: String,
    pub checked: bool,
}

/// The name shown for the option at `index`: its display label when there is a
/// nonempty one, the raw option otherwise.
pub open spec fn spec_option_name(select: Select, index: int) -> Seq<char> {
    if index < select.localized_options@.len() && select.localized_options@[index]@.len() > 0 {
        select.localized_options@[index]@
    } else {
        select.options@[index]@
    }
}

/// The picker rows for a dual connections device setting: one per raw option, named by
/// [`spec_option_name`] and checked when the option is among the selected values.
pub open spec fn spec_dual_connection_devices(
    setting: Option<Setting>,
    entries: Seq<DualConnectionEntry>,
) -> bool {
    match setting {
        Some(Setting::MultiSelectWithRemove { setting, values }) => {
            &&& entries.len() == setting.options@.len()
            &&& forall|i: int|
                0 <= i < entries.len() ==> {
                    &&& (#[trigger] entries[i]).mac@ == setting.options@[i]@
                    &&& entries[i].name@ == spec_option_name(setting, i)
                    &&& entries[i].checked == spec_strings(values@).contains(setting.options@[i]@)
                }
        },
        _ => entries.len() == 0,
    }
}

/// Whether `value` is one of `values`.
fn contains_string(values: &Vec<String>, value: &String) -> (result: bool)
    ensures
        result == spec_strings(values@).contains(value@),
{
    let found = position_of(values, value);
    proof {
        match found {
            Some(i) => {
                assert(spec_strings(values@)[i as int] == value@);
            },
            None => {},
        }
    }
    found.is_some()
}

/// The rows of the dual connections device picker.
pub fn dual_connection_devices(setting: &Option<Setting>) -> (result: Vec<DualConnectionEntry>)
    ensures
        spec_dual_connection_devices(*setting, result@),
{
    let mut result: Vec<DualConnectionEntry> = Vec::new();
    match setting {
        Some(Setting::MultiSelectWithRemove { setting: select, values }) => {
            let mut i: usize = 0;
            while i < select.options.len()
                invariant
                    i <= select.options@.len(),
                    result@.len() == i,
                    forall|j: int|
                        0 <= j < i ==> {
                            &&& (#[trigger] result@[j]).mac@ == select.options@[j]@
                            &&& result@[j].name@ == spec_option_name(*select, j)
                            &&& result@[j].checked == spec_strings(values@).contains(
                                select.options@[j]@,
                            )
                        },
                decreases select.options@.len() - i,
            {
                let option = &select.options[i];
                let name = if i < select.localized_options.len()
                    && !select.localized_options[i].as_str().is_empty() {
                    select.localized_options[i].clone()
                } else {
                    option.clone()
                };
                let checked = contains_string(values, option);
                result.push(DualConnectionEntry { mac: option.clone(), name, checked });
                i = i + 1;
            }
            result
        },
        _ => result,
    }
}

/// `list` without the entries equal to `item`, in order.
pub open spec fn spec_without(list: Seq<Seq<char>>, item: Seq<char>) -> Seq<Seq<char>>
    decreases list.len(),
{
    if list.len() == 0 {
        Seq::empty()
    } else if list.last() == item {
        spec_without(list.drop_last(), item)
    } else {
        spec_without(list.drop_last(), item).push(list.last())
    }
}

/// Removing an entry leaves no copy of it and keeps every other entry, in order.
pub proof fn lemma_without(list: Seq<Seq<char>>, item: Seq<char>)
    ensures
        !spec_without(list, item).contains(item),
        forall|other: Seq<char>|
            #![trigger spec_without(list, item).contains(other)]
            #![trigger list.contains(other)]
            other != item ==> (spec_without(list, item).contains(other) <==> list.contains(other)),
        spec_without(list, item).len() <= list.len(),
    decreases list.len(),
{
    if list.len() > 0 {
        let rest = list.drop_last();
        lemma_without(rest, item);
        assert(list =~= rest.push(list.last()));
        assert forall|other: Seq<char>| other != item implies (spec_without(list, item).contains(
            other,
        ) <==> list.contains(other)) by {
            if list.contains(other) {
                let w = spec_without(rest, item);
                let k = choose|k: int| 0 <= k < list.len() && list[k] == other;
                if k < list.len() - 1 {
                    assert(rest[k] == other);
                    assert(rest.contains(other));
                    assert(w.contains(other));
                    let m = choose|m: int| 0 <= m < w.len() && w[m] == other;
                    if list.last() != item {
                        assert(spec_without(list, item) == w.push(list.last()));
                        assert(spec_without(list, item)[m] == other);
                    }
                } else {
                    assert(spec_without(list, item) == spec_without(rest, item).push(list.last()));
                    assert(spec_without(list, item)[spec_without(rest, item).len() as int] == other);
                }
            }
            if spec_without(list, item).contains(other) {
                let w = spec_without(rest, item);
                let k = choose|k: int|
                    0 <= k < spec_without(list, item).len() && spec_without(list, item)[k] == other;
                if list.last() == item {
                    assert(w[k] == other);
                    assert(w.contains(other));
                } else if k == w.len() {
                    assert(list[list.len() - 1] == other);
                } else {
                    assert(spec_without(list, item) == w.push(list.last()));
                    assert(w[k] == other);
                    assert(w.contains(other));
                }
                if w.contains(other) {
                    assert(rest.contains(other));
                    let j = choose|j: int| 0 <= j < rest.len() && rest[j] == other;
                    assert(list[j] == other);
                }
            }
        }
        if list.last() != item {
            assert forall|k: int| 0 <= k < spec_without(list, item).len() implies spec_without(
                list,
                item,
            )[k] != item by {
                if k < spec_without(rest, item).len() {
                    assert(spec_without(list, item)[k] == spec_without(rest, item)[k]);
                }
            }
        }
    }
}

/// Switching a device off leaves it unselected; switching it on selects it exactly at
/// the end. The other selected devices stay selected either way.
pub proof fn lemma_toggle_dual_connection_device(values: Seq<Seq<char>>, mac: Seq<char>)
    ensures
        !spec_without(values, mac).contains(mac),
        spec_without(values, mac).push(mac).last() == mac,
        forall|other: Seq<char>|
            other != mac ==> (spec_without(values, mac).contains(other) <==> values.contains(other)),
{
    lemma_without(values, mac);
}

/// The new selection of the dual connections device picker after switching the device
/// `mac` on or off: the other selected devices in their order, then `mac` when it is on.
pub open spec fn spec_toggled_dual_connection_devices(
    setting: Option<Setting>,
    mac: Seq<char>,
    checked: bool,
) -> Option<ValueView> {
    match setting {
        Some(Setting::MultiSelectWithRemove { values, .. }) => {
            let others = spec_without(spec_strings(values@), mac);
            Some(ValueView::StringVec(if checked { others.push(mac) } else { others }))
        },
        _ => None,
    }
}

/// The value that switches the device `mac` on or off in the dual connections picker;
/// nothing when the setting is not a multi-select-with-remove setting.
pub fn toggled_dual_connection_devices(setting: &Option<Setting>, mac: &String, checked: bool) -> (result: Option<
    Value,
>)
    ensures
        spec_opt_value(result) == spec_toggled_dual_connection_devices(*setting, mac@, checked),
{
    match setting {
        Some(Setting::MultiSelectWithRemove { values, .. }) => {
            let mut selected: Vec<String> = Vec::new();
            let mut i: usize = 0;
            while i < values.len()
                invariant
                    i <= values@.len(),
                    spec_strings(selected@) == spec_without(
                        spec_strings(values@).take(i as int),
                        mac@,
                    ),
                decreases values@.len() - i,
            {
                let ghost before = spec_strings(values@).take(i as int);
                proof {
                    assert(spec_strings(values@).take(i + 1).drop_last() =~= before);
                    assert(spec_strings(values@).take(i + 1).last() == values@[i as int]@);
                }
                if values[i] != *mac {
                    selected.push(values[i].clone());
                    assert(spec_strings(selected@) =~= spec_without(before, mac@).push(
                        values@[i as int]@,
                    ));
                }
                i = i + 1;
            }
            assert(spec_strings(values@).take(values@.len() as int) =~= spec_strings(values@));
            if checked {
                selected.push(mac.clone());
                assert(spec_strings(selected@) =~= spec_without(spec_strings(values@), mac@).push(
                    mac@,
                ));
            }
            Some(Value::StringVec(selected))
        },
        _ => None,
    }
}

/// The new band values after setting band `index` of an equalizer setting to `value`
/// (as an `i16`, wrapping); nothing for an index outside the bands or a setting that is
/// not an equalizer.
pub open spec fn spec_equalizer_band_update(setting: Option<Setting>, index: i32, value: i32) -> Option<
    ValueView,
> {
    match setting {
        Some(Setting::Equalizer { value: current, .. }) => if 0 <= index < current@.len() {
            Some(ValueView::I16Vec(current@.update(index as int, value as i16)))
        } else {
            None
        },
        _ => None,
    }
}

/// The value that sets band `index` of an equalizer setting to `value`.
pub fn equalizer_band_update(setting: &Option<Setting>, index: i32, value: i32) -> (result: Option<Value>)
    ensures
        spec_opt_value(result) == spec_equalizer_band_update(*setting, index, value),
{
    match setting {
        Some(Setting::Equalizer { value: current, .. }) => {
            if index < 0 || index as usize >= current.len() {
                return None;
            }
            let mut new_values = current.clone();
            new_values.set(index as usize, value as i16);
            Some(Value::I16Vec(new_values))
        },
        _ => None,
    }
}

/// An ASCII byte in lower case; other bytes unchanged.
pub open spec fn spec_ascii_lower(byte: u8) -> u8 {
    if 65 <= byte <= 90 {
        (byte + 32) as u8
    } else {
        byte
    }
}

/// Two byte strings are equal when ASCII letters are compared without case.
pub open spec fn spec_eq_ignore_ascii_case(a: Seq<u8>, b: Seq<u8>) -> bool {
    a.len() == b.len() && forall|i: int| 0 <= i < a.len() ==> spec_ascii_lower(a[i])
        == spec_ascii_lower(b[i])
}

/// Compares the UTF-8 bytes of two texts without case for ASCII letters.
pub fn eq_ignore_ascii_case(a: &str, b: &str) -> (result: bool)
    ensures
        result == spec_eq_ignore_ascii_case(a.spec_bytes(), b.spec_bytes()),
{
    let x = a.as_bytes();
    let y = b.as_bytes();
    if x.len() != y.len() {
        return false;
    }
    let mut i: usize = 0;
    while i < x.len()
        invariant
            i <= x@.len(),
            x@ == a.spec_bytes(),
            y@ == b.spec_bytes(),
            x@.len() == y@.len(),
            forall|j: int| 0 <= j < i ==> spec_ascii_lower(x@[j]) == spec_ascii_lower(y@[j]),
        decreases x@.len() - i,
    {
        let p: u8 = if 65 <= x[i] && x[i] <= 90 { x[i] + 32 } else { x[i] };
        let q: u8 = if 65 <= y[i] && y[i] <= 90 { y[i] + 32 } else { y[i] };
        assert(p == spec_ascii_lower(x@[i as int]) && q == spec_ascii_lower(y@[i as int]));
        if p != q {
            return false;
        }
        i = i + 1;
    }
    true
}

/// Whether an information setting reads "yes", ignoring ASCII case.
pub open spec fn spec_is_charging(setting: Option<Setting>) -> bool {
    match spec_information_value(setting) {
        Some(value) => spec_eq_ignore_ascii_case(encode_utf8(value), "yes".spec_bytes()),
        None => false,
    }
}

/// Whether a charging information setting reads "yes", ignoring ASCII case.
pub fn is_charging(setting: &Option<Setting>) -> (result: bool)
    ensures
        result == spec_is_charging(*setting),
{
    match information_value(setting) {
        Some(value) => eq_ignore_ascii_case(value.as_str(), "yes"),
        None => false,
    }
}

/// A value in the property map that the settings page shows for one setting.
#[derive(Debug, Clone)]
pub enum MapValue {
    Str(String),
    Bool(bool),
    Int(i32),
    StrList(Vec<String>),
    IntList(Vec<i32>),
}

/// A property map value as plain data.
pub enum MapValueView {
    Str(Seq<char>),
    Bool(bool),
    Int(i32),
    StrList(Seq<Seq<char>>),
    IntList(Seq<i32>),
}

impl View for MapValue {
    type V = MapValueView;

    open spec fn view(&self) -> MapValueView {
        match self {
            MapValue::Str(value) => MapValueView::Str(value@),
            MapValue::Bool(value) => MapValueView::Bool(*value),
            MapValue::Int(value) => MapValueView::Int(*value),
            MapValue::StrList(values) => MapValueView::StrList(spec_strings(values@)),
            MapValue::IntList(values) => MapValueView::IntList(values@),
        }
    }
}

/// The keys and values of a property map, in insertion order.
pub open spec fn spec_map_view(entries: Seq<(String, MapValue)>) -> Seq<(Seq<char>, MapValueView)> {
    entries.map_values(|entry: (String, MapValue)| (entry.0@, entry.1@))
}

/// The `options` and `labels` entries of a select-style setting.
pub open spec fn spec_select_entries(select: Select) -> Seq<(Seq<char>, MapValueView)> {
    seq![
        ("options"@, MapValueView::StrList(spec_strings(select.options@))),
        ("labels"@, MapValueView::StrList(spec_strings(select.localized_options@))),
    ]
}

/// The band values of an equalizer as `i32`s.
pub open spec fn spec_bands_i32(values: Seq<i16>) -> Seq<i32> {
    values.map_values(|value: i16| value as i32)
}

/// The band frequencies of an equalizer as `i32`s.
pub open spec fn spec_hz_i32(values: Seq<u16>) -> Seq<i32> {
    values.map_values(|value: u16| value as i32)
}

/// The entries that describe a setting of each kind, after its id and label.
pub open spec fn spec_setting_kind_entries(setting: Setting) -> Seq<(Seq<char>, MapValueView)> {
    match setting {
        Setting::Toggle { value } => seq![
            ("kind"@, MapValueView::Str("toggle"@)),
            ("value"@, MapValueView::Bool(value)),
        ],
        Setting::I32Range { setting, value } => seq![
            ("kind"@, MapValueView::Str("range"@)),
            ("value"@, MapValueView::Int(value)),
            ("min"@, MapValueView::Int(setting.start)),
            ("max"@, MapValueView::Int(setting.end)),
            ("step"@, MapValueView::Int(setting.step)),
        ],
        Setting::Select { setting, value } => seq![
            ("kind"@, MapValueView::Str("select"@)),
            ("value"@, MapValueView::Str(value@)),
        ] + spec_select_entries(setting) + seq![("nullable"@, MapValueView::Bool(false))],
        Setting::OptionalSelect { setting, value } | Setting::ModifiableSelect { setting, value } =>
            seq![
            ("kind"@, MapValueView::Str("select"@)),
            ("value"@, MapValueView::Str(
                match value {
                    Some(value) => value@,
                    None => Seq::empty(),
                },
            )),
        ] + spec_select_entries(setting) + seq![("nullable"@, MapValueView::Bool(true))],
        Setting::PresetEqualizerProfileSelect { select, value } => seq![
            ("kind"@, MapValueView::Str("select"@)),
            ("value"@, MapValueView::Str(
                match value {
                    Some(value) => value@,
                    None => Seq::empty(),
                },
            )),
        ] + spec_select_entries(select) + seq![("nullable"@, MapValueView::Bool(true))],
        Setting::MultiSelect { setting, values } | Setting::MultiSelectWithRemove {
            setting,
            values,
        } => seq![
            ("kind"@, MapValueView::Str("multiselect"@)),
            ("values"@, MapValueView::StrList(spec_strings(values@))),
        ] + spec_select_entries(setting),
        Setting::Equalizer { setting, read_only, value } => seq![
            ("kind"@, MapValueView::Str("equalizer"@)),
            ("values"@, MapValueView::IntList(spec_bands_i32(value@))),
            ("min"@, MapValueView::Int(setting.min as i32)),
            ("max"@, MapValueView::Int(setting.max as i32)),
            ("bands"@, MapValueView::IntList(spec_hz_i32(setting.band_hz@))),
            ("readOnly"@, MapValueView::Bool(read_only)),
        ],
        Setting::Information { translated_value, .. } => seq![
            ("kind"@, MapValueView::Str("information"@)),
            ("value"@, MapValueView::Str(translated_value@)),
        ],
        Setting::ImportString => seq![("kind"@, MapValueView::Str("import"@))],
        Setting::HueColorPicker { hue } => seq![
            ("kind"@, MapValueView::Str("hue"@)),
            ("value"@, MapValueView::Int(hue)),
        ],
        Setting::Action => seq![("kind"@, MapValueView::Str("action"@))],
    }
}

/// The property map of a setting: its id and label, then the entries of its kind.
pub open spec fn spec_setting_to_map(setting_id: SettingId, setting: Setting) -> Seq<
    (Seq<char>, MapValueView),
> {
    seq![
        ("id"@, MapValueView::Str(spec_setting_id_name(setting_id))),
        ("label"@, MapValueView::Str(spec_label_for_setting(setting_id))),
    ] + spec_setting_kind_entries(setting)
}

/// Appends the entry `key: value`.
fn put(map: &mut Vec<(String, MapValue)>, key: &str, value: MapValue)
    ensures
        spec_map_view(final(map)@) == spec_map_view(old(map)@).push((key@, value@)),
{
    map.push((String::from_str(key), value));
    assert(spec_map_view(map@) =~= spec_map_view(old(map)@).push((key@, value@)));
}

/// Appends the `options` and `labels` entries of a select.
fn put_select_options(map: &mut Vec<(String, MapValue)>, select: &Select)
    ensures
        spec_map_view(final(map)@) == spec_map_view(old(map)@) + spec_select_entries(*select),
{
    put(map, "options", MapValue::StrList(clone_strings(&select.options)));
    put(map, "labels", MapValue::StrList(clone_strings(&select.localized_options)));
    assert(spec_map_view(map@) =~= spec_map_view(old(map)@) + spec_select_entries(*select));
}

/// The band values as `i32`s.
fn bands_i32(values: &Vec<i16>) -> (result: Vec<i32>)
    ensures
        result@ == spec_bands_i32(values@),
{
    let mut result: Vec<i32> = Vec::new();
    let mut i: usize = 0;
    while i < values.len()
        invariant
            i <= values@.len(),
            result@ == spec_bands_i32(values@.take(i as int)),
        decreases values@.len() - i,
    {
        result.push(values[i] as i32);
        i = i + 1;
        assert(result@ =~= spec_bands_i32(values@.take(i as int)));
    }
    assert(values@.take(values@.len() as int) =~= values@);
    result
}

/// The band frequencies as `i32`s.
fn hz_i32(values: &Vec<u16>) -> (result: Vec<i32>)
    ensures
        result@ == spec_hz_i32(values@),
{
    let mut result: Vec<i32> = Vec::new();
    let mut i: usize = 0;
    while i < values.len()
        invariant
            i <= values@.len(),
            result@ == spec_hz_i32(values@.take(i as int)),
        decreases values@.len() - i,
    {
        result.push(values[i] as i32);
        i = i + 1;
        assert(result@ =~= spec_hz_i32(values@.take(i as int)));
    }
    assert(values@.take(values@.len() as int) =~= values@);
    result
}

/// The text of an optional selection, empty when nothing is selected.
fn value_or_empty(value: &Option<String>) -> (result: String)
    ensures
        result@ == match value {
            Some(value) => value@,
            None => Seq::<char>::empty(),
        },
{
    match value {
        Some(value) => value.clone(),
        None => String::new(),
    }
}

/// The entries that describe a setting of each kind.
fn setting_kind_entries(map: &mut Vec<(String, MapValue)>, setting: &Setting)
    ensures
        spec_map_view(final(map)@) == spec_map_view(old(map)@) + spec_setting_kind_entries(*setting),
{
    let ghost start = spec_map_view(map@);
    match setting {
        Setting::Toggle { value } => {
            put(map, "kind", MapValue::Str(String::from_str("toggle")));
            put(map, "value", MapValue::Bool(*value));
        },
        Setting::I32Range { setting, value } => {
            put(map, "kind", MapValue::Str(String::from_str("range")));
            put(map, "value", MapValue::Int(*value));
            put(map, "min", MapValue::Int(setting.start));
            put(map, "max", MapValue::Int(setting.end));
            put(map, "step", MapValue::Int(setting.step));
        },
        Setting::Select { setting, value } => {
            put(map, "kind", MapValue::Str(String::from_str("select")));
            put(map, "value", MapValue::Str(value.clone()));
            put_select_options(map, setting);
            put(map, "nullable", MapValue::Bool(false));
        },
        Setting::OptionalSelect { setting, value } | Setting::ModifiableSelect { setting, value } => {
            put(map, "kind", MapValue::Str(String::from_str("select")));
            put(map, "value", MapValue::Str(value_or_empty(value)));
            put_select_options(map, setting);
            put(map, "nullable", MapValue::Bool(true));
        },
        Setting::PresetEqualizerProfileSelect { select, value } => {
            put(map, "kind", MapValue::Str(String::from_str("select")));
            put(map, "value", MapValue::Str(value_or_empty(value)));
            put_select_options(map, select);
            put(map, "nullable", MapValue::Bool(true));
        },
        Setting::MultiSelect { setting, values } | Setting::MultiSelectWithRemove {
            setting,
            values,
        } => {
            put(map, "kind", MapValue::Str(String::from_str("multiselect")));
            put(map, "values", MapValue::StrList(clone_strings(values)));
            put_select_options(map, setting);
        },
        Setting::Equalizer { setting, read_only, value } => {
            put(map, "kind", MapValue::Str(String::from_str("equalizer")));
            put(map, "values", MapValue::IntList(bands_i32(value)));
            put(map, "min", MapValue::Int(setting.min as i32));
            put(map, "max", MapValue::Int(setting.max as i32));
            put(map, "bands", MapValue::IntList(hz_i32(&setting.band_hz)));
            put(map, "readOnly", MapValue::Bool(*read_only));
        },
        Setting::Information { translated_value, .. } => {
            put(map, "kind", MapValue::Str(String::from_str("information")));
            put(map, "value", MapValue::Str(translated_value.clone()));
        },
        Setting::ImportString => {
            put(map, "kind", MapValue::Str(String::from_str("import")));
        },
        Setting::HueColorPicker { hue } => {
            put(map, "kind", MapValue::Str(String::from_str("hue")));
            put(map, "value", MapValue::Int(*hue));
        },
        Setting::Action => {
            put(map, "kind", MapValue::Str(String::from_str("action")));
        },
    }
    assert(spec_map_view(map@) =~= start + spec_setting_kind_entries(*setting));
}

/// The property map that the settings page shows for one setting.
pub fn setting_to_map(setting_id: SettingId, setting: &Setting) -> (result: Vec<(String, MapValue)>)
    ensures
        spec_map_view(result@) == spec_setting_to_map(setting_id, *setting),
{
    let mut map: Vec<(String, MapValue)> = Vec::new();
    put(&mut map, "id", MapValue::Str(setting_id.to_string()));
    put(&mut map, "label", MapValue::Str(label_for_setting(setting_id)));
    setting_kind_entries(&mut map, setting);
    assert(spec_map_view(map@) =~= spec_setting_to_map(setting_id, *setting));
    map
}

/// The settings page shows a toggle with its own state: the property map of a toggle
/// setting holds the entry `value: v` for the toggle's value `v`, and no other entry
/// named `value`.
pub proof fn lemma_toggle_map_shows_its_value(setting_id: SettingId, value: bool)
    ensures
        ({
            let m = spec_setting_to_map(setting_id, Setting::Toggle { value });
            &&& exists|i: int| 0 <= i < m.len() && m[i] == ("value"@, MapValueView::Bool(value))
            &&& forall|i: int|
                0 <= i < m.len() && (#[trigger] m[i]).0 == "value"@ ==> m[i].1
                    == MapValueView::Bool(value)
        }),
{
    reveal_strlit("id");
    reveal_strlit("label");
    reveal_strlit("kind");
    reveal_strlit("value");
    let m = spec_setting_to_map(setting_id, Setting::Toggle { value });
    assert(m[3] == ("value"@, MapValueView::Bool(value)));
    assert("id"@.len() == 2 && "label"@.len() == 5 && "kind"@.len() == 4);
    assert("value"@.len() == 5 && "value"@[0] != "label"@[0]);
}

/// Picking an option of a select that may be unset (optional, modifiable or preset)
/// sends that very option; only the empty option clears the setting.
pub proof fn lemma_optional_select_sends_the_chosen_option(
    setting: Option<Setting>,
    value: Seq<char>,
)
    requires
        setting matches Some(Setting::OptionalSelect { .. }) || setting matches Some(
            Setting::ModifiableSelect { .. },
        ) || setting matches Some(Setting::PresetEqualizerProfileSelect { .. }),
    ensures
        value.len() > 0 ==> (spec_select_value(setting, value) matches Some(
            ValueView::OptionalString(Some(sent)),
        ) && sent == value),
        value.len() == 0 ==> spec_select_value(setting, value) == Some(
            ValueView::OptionalString(None),
        ),
{
}

/// Each row of the dual connections picker carries the device address of the option at
/// its position, whatever display label that option has.
pub proof fn lemma_picker_rows_carry_device_addresses(
    select: Select,
    values: Vec<String>,
    entries: Seq<DualConnectionEntry>,
)
    requires
        spec_dual_connection_devices(
            Some(Setting::MultiSelectWithRemove { setting: select, values }),
            entries,
        ),
    ensures
        entries.len() == select.options@.len(),
        forall|i: int| 0 <= i < entries.len() ==> (#[trigger] entries[i]).mac@ == select.options@[i]@,
{
}

/// The addresses in the picker depend on the options alone: two settings with the same
/// options give rows with the same addresses, however their labels and selected values
/// differ.
pub proof fn lemma_picker_addresses_ignore_labels(
    select1: Select,
    values1: Vec<String>,
    entries1: Seq<DualConnectionEntry>,
    select2: Select,
    values2: Vec<String>,
    entries2: Seq<DualConnectionEntry>,
)
    requires
        spec_dual_connection_devices(
            Some(Setting::MultiSelectWithRemove { setting: select1, values: values1 }),
            entries1,
        ),
        spec_dual_connection_devices(
            Some(Setting::MultiSelectWithRemove { setting: select2, values: values2 }),
            entries2,
        ),
        spec_strings(select1.options@) == spec_strings(select2.options@),
    ensures
        entries1.len() == entries2.len(),
        forall|i: int| 0 <= i < entries1.len() ==> (#[trigger] entries1[i]).mac@ == entries2[i].mac@,
{
    assert(spec_strings(select1.options@).len() == select1.options@.len());
    assert(spec_strings(select2.options@).len() == select2.options@.len());
    assert forall|i: int| 0 <= i < entries1.len() implies (#[trigger] entries1[i]).mac@
        == entries2[i].mac@ by {
        assert(spec_strings(select1.options@)[i] == select1.options@[i]@);
        assert(spec_strings(select2.options@)[i] == select2.options@[i]@);
    }
}

/// A picker row is checked exactly when its device address is among the setting's
/// selected values.
pub proof fn lemma_picker_rows_checked_when_selected(
    select: Select,
    values: Vec<String>,
    entries: Seq<DualConnectionEntry>,
)
    requires
        spec_dual_connection_devices(
            Some(Setting::MultiSelectWithRemove { setting: select, values }),
            entries,
        ),
    ensures
        forall|i: int|
            0 <= i < entries.len() ==> ((#[trigger] entries[i]).checked <==> exists|j: int|
                0 <= j < values@.len() && values@[j]@ == entries[i].mac@),
{
    assert forall|i: int| 0 <= i < entries.len() implies ((#[trigger] entries[i]).checked
        <==> exists|j: int| 0 <= j < values@.len() && values@[j]@ == entries[i].mac@) by {
        let strs = spec_strings(values@);
        if entries[i].checked {
            let j = choose|j: int| 0 <= j < strs.len() && strs[j] == select.options@[i]@;
            assert(values@[j]@ == strs[j]);
        }
        if exists|j: int| 0 <= j < values@.len() && values@[j]@ == entries[i].mac@ {
            let j = choose|j: int| 0 <= j < values@.len() && values@[j]@ == entries[i].mac@;
            assert(strs[j] == values@[j]@);
        }
    }
}

/// The settings page shows a range setting with its own value and bounds: its property
/// map holds `value`, `min`, `max` and `step` entries from the setting.
pub proof fn lemma_range_map_shows_its_value(setting_id: SettingId, range: Range, value: i32)
    ensures
        ({
            let m = spec_setting_to_map(setting_id, Setting::I32Range { setting: range, value });
            &&& m.contains(("value"@, MapValueView::Int(value)))
            &&& m.contains(("min"@, MapValueView::Int(range.start)))
            &&& m.contains(("max"@, MapValueView::Int(range.end)))
            &&& m.contains(("step"@, MapValueView::Int(range.step)))
        }),
{
    let m = spec_setting_to_map(setting_id, Setting::I32Range { setting: range, value });
    assert(m[3] == ("value"@, MapValueView::Int(value)));
    assert(m[4] == ("min"@, MapValueView::Int(range.start)));
    assert(m[5] == ("max"@, MapValueView::Int(range.end)));
    assert(m[6] == ("step"@, MapValueView::Int(range.step)));
}

/// The category to show after the category list is rebuilt: unchanged (`None`) when
/// the list is empty or still holds the current category, the first one otherwise.
pub open spec fn spec_rebuilt_category(categories: Seq<CategoryId>, current: Seq<char>) -> Option<
    CategoryId,
> {
    if categories.len() == 0 || exists|i: int|
        0 <= i < categories.len() && spec_category_id_name(categories[i]) == current {
        None
    } else {
        Some(categories[0])
    }
}

/// The category to switch to after the category list is rebuilt, if any.
pub fn rebuilt_category(categories: &Vec<CategoryId>, current: &String) -> (result: Option<
    CategoryId,
>)
    ensures
        result == spec_rebuilt_category(categories@, current@),
{
    if categories.len() == 0 {
        return None;
    }
    let mut i: usize = 0;
    while i < categories.len()
        invariant
            i <= categories@.len(),
            forall|j: int| 0 <= j < i ==> spec_category_id_name(categories@[j]) != current@,
        decreases categories@.len() - i,
    {
        if categories[i].to_string() == *current {
            return None;
        }
        i = i + 1;
    }
    Some(categories[0])
}

/// The rows of the category list: each category's identifier text and label.
pub fn category_entries(categories: &Vec<CategoryId>) -> (result: Vec<(String, String)>)
    ensures
        result@.len() == categories@.len(),
        forall|i: int|
            0 <= i < categories@.len() ==> (#[trigger] result@[i]).0@ == spec_category_id_name(
                categories@[i],
            ) && result@[i].1@ == spec_label_for_category(categories@[i]),
{
    let mut result: Vec<(String, String)> = Vec::new();
    let mut i: usize = 0;
    while i < categories.len()
        invariant
            i <= categories@.len(),
            result@.len() == i,
            forall|j: int|
                0 <= j < i ==> (#[trigger] result@[j]).0@ == spec_category_id_name(categories@[j])
                    && result@[j].1@ == spec_label_for_category(categories@[j]),
        decreases categories@.len() - i,
    {
        let category = categories[i];
        result.push((category.to_string(), label_for_category(category)));
        i = i + 1;
    }
    result
}

/// The category list rows as text.
pub open spec fn spec_category_rows(rows: Seq<(String, String)>) -> Seq<(Seq<char>, Seq<char>)> {
    rows.map_values(|row: (String, String)| (row.0@, row.1@))
}

/// The rows the category list shows for `categories`: identifier text and label.
pub open spec fn spec_category_entries(categories: Seq<CategoryId>) -> Seq<(Seq<char>, Seq<char>)> {
    categories.map_values(
        |c: CategoryId| (spec_category_id_name(c), spec_label_for_category(c)),
    )
}

/// The settings page rows for the settings of a category, in order: one map per setting
/// that the device reports; settings it does not report are left out.
pub open spec fn spec_settings_rows(settings: Seq<(SettingId, Option<Setting>)>) -> Seq<
    Seq<(Seq<char>, MapValueView)>,
>
    decreases settings.len(),
{
    if settings.len() == 0 {
        Seq::empty()
    } else {
        let rest = spec_settings_rows(settings.drop_last());
        match settings.last().1 {
            Some(setting) => rest.push(spec_setting_to_map(settings.last().0, setting)),
            None => rest,
        }
    }
}

/// The settings page rows as plain values.
pub open spec fn spec_settings_view(rows: Seq<Vec<(String, MapValue)>>) -> Seq<
    Seq<(Seq<char>, MapValueView)>,
> {
    rows.map_values(|row: Vec<(String, MapValue)>| spec_map_view(row@))
}

/// The category list, the shown category and its settings page.
pub struct CategoryView {
    pub categories: Vec<(String, String)>,
    pub current_category: String,
    pub settings: Vec<Vec<(String, MapValue)>>,
}

impl CategoryView {
    /// Nothing listed, no category shown, no settings.
    pub fn new() -> (result: Self)
        ensures
            result.categories@.len() == 0,
            result.current_category@ == Seq::<char>::empty(),
            result.settings@.len() == 0,
    {
        CategoryView { categories: Vec::new(), current_category: String::new(), settings: Vec::new() }
    }

    /// Without a device the window lists no category, shows none and has no settings.
    pub fn clear_without_device(&mut self)
        ensures
            final(self).categories@.len() == 0,
            final(self).current_category@ == Seq::<char>::empty(),
            final(self).settings@.len() == 0,
    {
        self.categories = Vec::new();
        self.current_category = String::new();
        self.settings = Vec::new();
    }

    /// The device's categories were read. With none, the list empties and the shown
    /// category stays. Otherwise the list holds every category in order, and the shown
    /// category stays when it is listed and becomes the first one when it is not.
    pub fn rebuild_categories(&mut self, categories: &Vec<CategoryId>)
        ensures
            final(self).settings@ == old(self).settings@,
            categories@.len() == 0 ==> final(self).categories@.len() == 0
                && final(self).current_category@ == old(self).current_category@,
            categories@.len() > 0 ==> spec_category_rows(final(self).categories@)
                == spec_category_entries(categories@) && final(self).current_category@ == (
            match spec_rebuilt_category(categories@, old(self).current_category@) {
                Some(c) => spec_category_id_name(c),
                None => old(self).current_category@,
            }),
    {
        if categories.len() == 0 {
            self.categories = Vec::new();
            return;
        }
        let rows = category_entries(categories);
        assert(spec_category_rows(rows@) =~= spec_category_entries(categories@));
        self.categories = rows;
        match rebuilt_category(categories, &self.current_category) {
            Some(c) => {
                self.current_category = c.to_string();
            },
            None => {},
        }
    }

    /// The category the settings page shows: the first of the device's categories
    /// whose identifier text is the shown category, if any.
    pub fn current_category_in(&self, categories: &Vec<CategoryId>) -> (result: Option<
        CategoryId,
    >)
        ensures
            match result {
                Some(c) => exists|i: int|
                    0 <= i < categories@.len() && categories@[i] == c && spec_category_id_name(c)
                        == self.current_category@ && forall|j: int|
                        0 <= j < i ==> spec_category_id_name(#[trigger] categories@[j])
                            != self.current_category@,
                None => forall|j: int|
                    0 <= j < categories@.len() ==> spec_category_id_name(#[trigger] categories@[j])
                        != self.current_category@,
            },
    {
        let mut i: usize = 0;
        while i < categories.len()
            invariant
                i <= categories@.len(),
                forall|j: int|
                    0 <= j < i ==> spec_category_id_name(#[trigger] categories@[j])
                        != self.current_category@,
            decreases categories@.len() - i,
        {
            if categories[i].to_string() == self.current_category {
                return Some(categories[i]);
            }
            i = i + 1;
        }
        None
    }

    /// The settings page is rebuilt from the settings of the shown category (each with
    /// what the device reports for it); with no shown category the app passes none, and
    /// the page empties.
    pub fn rebuild_settings(&mut self, settings: &Vec<(SettingId, Option<Setting>)>)
        ensures
            spec_settings_view(final(self).settings@) == spec_settings_rows(settings@),
            final(self).categories@ == old(self).categories@,
            final(self).current_category@ == old(self).current_category@,
    {
        let mut rows: Vec<Vec<(String, MapValue)>> = Vec::new();
        let mut i: usize = 0;
        while i < settings.len()
            invariant
                i <= settings@.len(),
                spec_settings_view(rows@) == spec_settings_rows(settings@.take(i as int)),
            decreases settings@.len() - i,
        {
            let ghost before = rows@;
            proof {
                assert(settings@.take(i + 1).drop_last() =~= settings@.take(i as int));
            }
            match &settings[i].1 {
                Some(setting) => {
                    let row = setting_to_map(settings[i].0, setting);
                    rows.push(row);
                    assert(spec_settings_view(rows@) =~= spec_settings_view(before).push(
                        spec_map_view(row@),
                    ));
                },
                None => {},
            }
            i = i + 1;
        }
        assert(settings@.take(settings@.len() as int) =~= settings@);
        self.settings = rows;
    }

    /// The user picks category `id`: when it is not already shown it becomes the shown
    /// category, and the result says that the settings page must be rebuilt.
    pub fn set_category(&mut self, id: String) -> (changed: bool)
        ensures
            changed == (id@ != old(self).current_category@),
            final(self).current_category@ == id@,
            final(self).categories@ == old(self).categories@,
            final(self).settings@ == old(self).settings@,
    {
        if self.current_category == id {
            return false;
        }
        self.current_category = id;
        true
    }
}

/// After a rebuild with at least one category, the shown category is one of the listed
/// categories.
pub proof fn lemma_rebuilt_category_is_listed(categories: Seq<CategoryId>, current: Seq<char>)
    requires
        categories.len() > 0,
    ensures
        exists|i: int|
            0 <= i < categories.len() && #[trigger] spec_category_id_name(categories[i]) == (
            match spec_rebuilt_category(categories, current) {
                Some(c) => spec_category_id_name(c),
                None => current,
            }),
{
    match spec_rebuilt_category(categories, current) {
        Some(c) => {
            assert(spec_category_id_name(categories[0]) == spec_category_id_name(c));
        },
        None => {},
    }
}

/// A change the user asks for on the settings page or from the tray.
#[derive(Debug, Clone)]
pub enum SettingRequest {
    /// Switch a toggle.
    Toggle(bool),
    /// Pick an option of a select by its raw name.
    Select(String),
    /// Pick an option of a select by its display position.
    SelectByIndex(i32),
    /// Set an integer range.
    Range(i32),
    /// Set one band of an equalizer.
    EqualizerBand { index: i32, value: i32 },
    /// Run an action.
    Trigger,
}

/// The view of an optional setting change.
pub open spec fn spec_opt_change(change: Option<(SettingId, Value)>) -> Option<(SettingId, ValueView)> {
    match change {
        Some((id, value)) => Some((id, value@)),
        None => None,
    }
}

/// The value that a request sends for a setting in its current state; `None` when the
/// request does not fit the setting.
pub open spec fn spec_request_value(setting: Option<Setting>, request: SettingRequest) -> Option<
    ValueView,
> {
    match request {
        SettingRequest::Toggle(value) => Some(ValueView::Bool(value)),
        SettingRequest::Select(value) => spec_select_value(setting, value@),
        SettingRequest::SelectByIndex(index) => spec_select_value_by_index(setting, index),
        SettingRequest::Range(value) => Some(ValueView::I32(value)),
        SettingRequest::EqualizerBand { index, value } => spec_equalizer_band_update(
            setting,
            index,
            value,
        ),
        SettingRequest::Trigger => Some(ValueView::Bool(true)),
    }
}

/// The change sent for a request on the setting with identifier text `id`: nothing
/// without a connected device or for an unknown identifier, otherwise the setting and
/// [`spec_request_value`] for its current state `setting`.
pub open spec fn spec_setting_change(
    has_device: bool,
    id: Seq<char>,
    setting: Option<Setting>,
    request: SettingRequest,
) -> Option<(SettingId, ValueView)> {
    if !has_device {
        None
    } else if exists|setting_id: SettingId| spec_setting_id_name(setting_id) == id {
        let setting_id = choose|setting_id: SettingId| spec_setting_id_name(setting_id) == id;
        match spec_request_value(setting, request) {
            Some(value) => Some((setting_id, value)),
            None => None,
        }
    } else {
        None
    }
}

/// The change to send for a request on the setting with identifier text `id`, whose
/// current state is `setting`.
pub fn setting_change(
    has_device: bool,
    id: &str,
    setting: &Option<Setting>,
    request: SettingRequest,
) -> (result: Option<(SettingId, Value)>)
    ensures
        spec_opt_change(result) == spec_setting_change(has_device, id@, *setting, request),
{
    if !has_device {
        return None;
    }
    let setting_id = match SettingId::from_str(id) {
        Some(setting_id) => setting_id,
        None => {
            return None;
        },
    };
    proof {
        let chosen = choose|other: SettingId| spec_setting_id_name(other) == id@;
        lemma_setting_id_names_distinct(chosen, setting_id);
    }
    let ghost request_view = request;
    let value = match request {
        SettingRequest::Toggle(value) => Some(Value::Bool(value)),
        SettingRequest::Select(value) => select_value(setting, value),
        SettingRequest::SelectByIndex(index) => select_value_by_index(setting, index),
        SettingRequest::Range(value) => Some(Value::I32(value)),
        SettingRequest::EqualizerBand { index, value } => equalizer_band_update(setting, index, value),
        SettingRequest::Trigger => Some(Value::Bool(true)),
    };
    assert(spec_opt_value(value) == spec_request_value(*setting, request_view));
    match value {
        Some(value) => Some((setting_id, value)),
        None => None,
    }
}

/// The change that switches device `mac` on or off in the dual connections picker,
/// whose setting is in state `setting`; nothing without a connected device.
pub fn dual_connection_device_change(
    has_device: bool,
    setting: &Option<Setting>,
    mac: &String,
    checked: bool,
) -> (result: Option<(SettingId, Value)>)
    ensures
        spec_opt_change(result) == (if !has_device {
            None
        } else {
            match spec_toggled_dual_connection_devices(*setting, mac@, checked) {
                Some(value) => Some((SettingId::DualConnectionsDevices, value)),
                None => None,
            }
        }),
{
    if !has_device {
        return None;
    }
    match toggled_dual_connection_devices(setting, mac, checked) {
        Some(value) => Some((SettingId::DualConnectionsDevices, value)),
        None => None,
    }
}

/// The change that removes device `mac` from the dual connections list; nothing without
/// a connected device.
pub fn remove_dual_connection_device_change(has_device: bool, mac: &String) -> (result: Option<
    (SettingId, Value),
>)
    ensures
        spec_opt_change(result) == (if has_device {
            Some((SettingId::DualConnectionsDevices, ValueView::RemoveFromMultiSelect(mac@)))
        } else {
            None
        }),
{
    if has_device {
        Some((SettingId::DualConnectionsDevices, Value::RemoveFromMultiSelect(mac.clone())))
    } else {
        None
    }
}

/// What the Qt app does for a tray command.
#[derive(Debug, Clone)]
pub enum TrayAction {
    /// Send this setting change to the device.
    ChangeSetting(SettingId, Value),
    /// Bring the settings window to the front.
    OpenSettings,
    /// Quit the app.
    Quit,
    /// Nothing to do.
    Ignore,
}

/// The action for a tray command, given whether a device is connected and the current
/// state of its ambient sound mode setting: a mode change goes through
/// [`spec_select_value`], a preset change selects that preset.
pub open spec fn spec_tray_action(
    command: TrayCommand,
    has_device: bool,
    ambient_sound_mode: Option<Setting>,
    action: TrayAction,
) -> bool {
    match command {
        TrayCommand::SetAmbientSoundMode(mode) => match spec_select_value(
            ambient_sound_mode,
            mode@,
        ) {
            Some(value) if has_device => match action {
                TrayAction::ChangeSetting(id, sent) => id == SettingId::AmbientSoundMode && sent@
                    == value,
                _ => false,
            },
            _ => action is Ignore,
        },
        TrayCommand::SetEqualizerPreset(preset) => if has_device {
            match action {
                TrayAction::ChangeSetting(id, sent) => id == SettingId::PresetEqualizerProfile
                    && sent@ == ValueView::OptionalString(Some(preset@)),
                _ => false,
            }
        } else {
            action is Ignore
        },
        TrayCommand::OpenSettings => action is OpenSettings,
        TrayCommand::Quit => action is Quit,
    }
}

/// The action for a tray command.
pub fn tray_command_action(
    command: TrayCommand,
    has_device: bool,
    ambient_sound_mode: &Option<Setting>,
) -> (action: TrayAction)
    ensures
        spec_tray_action(command, has_device, *ambient_sound_mode, action),
{
    match command {
        TrayCommand::SetAmbientSoundMode(mode) => {
            if !has_device {
                return TrayAction::Ignore;
            }
            match select_value(ambient_sound_mode, mode) {
                Some(value) => TrayAction::ChangeSetting(SettingId::AmbientSoundMode, value),
                None => TrayAction::Ignore,
            }
        },
        TrayCommand::SetEqualizerPreset(preset) => {
            if !has_device {
                return TrayAction::Ignore;
            }
            TrayAction::ChangeSetting(
                SettingId::PresetEqualizerProfile,
                Value::OptionalString(Some(preset)),
            )
        },
        TrayCommand::OpenSettings => TrayAction::OpenSettings,
        TrayCommand::Quit => TrayAction::Quit,
    }
}

} // verus!
