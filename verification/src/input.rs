//! The request payload for creating a patient record, and its JSON form.

use vstd::prelude::*;
use vstd::string::*;
use crate::messages::serialization_failure;
use crate::trusted::{encode_json_string, json_string_text};

verus! {

/// The data of a patient record to be created.
///
/// The three personal fields are always present; the remaining ones are
/// optional.  Nothing about their contents is checked here: validation belongs
/// to the script that stores the record.
#[derive(Debug)]
pub struct PazienteInput {
    pub nome: String,
    pub cognome: String,
    pub data_nascita: String,
    pub codice_fiscale: Option<String>,
    pub diagnosi: Option<String>,
    pub note: Option<String>,
}

/// A patient record as plain text fields.
pub struct PazienteInputView {
    pub nome: Seq<char>,
    pub cognome: Seq<char>,
    pub data_nascita: Seq<char>,
    pub codice_fiscale: Option<Seq<char>>,
    pub diagnosi: Option<Seq<char>>,
    pub note: Option<Seq<char>>,
}

impl View for PazienteInput {
    type V = PazienteInputView;

    open spec fn view(&self) -> PazienteInputView {
        PazienteInputView {
            nome: self.nome@,
            cognome: self.cognome@,
            data_nascita: self.data_nascita@,
            codice_fiscale: self.codice_fiscale.deep_view(),
            diagnosi: self.diagnosi.deep_view(),
            note: self.note.deep_view(),
        }
    }
}

/// The JSON text of an optional field: a string literal, or `null` where the
/// field is absent.
pub open spec fn json_optional_text(field: Option<Seq<char>>) -> Seq<char> {
    match field {
        Some(text) => json_string_text(text),
        None => "null"@,
    }
}

/// The JSON object of a record, given the JSON text of each of its six
/// values: the members in the order of the fields, on one line, without
/// white space.
pub open spec fn record_json(
    nome: Seq<char>,
    cognome: Seq<char>,
    data_nascita: Seq<char>,
    codice_fiscale: Seq<char>,
    diagnosi: Seq<char>,
    note: Seq<char>,
) -> Seq<char> {
    "{\"nome\":"@ + nome + ",\"cognome\":"@ + cognome + ",\"data_nascita\":"@ + data_nascita
        + ",\"codice_fiscale\":"@ + codice_fiscale + ",\"diagnosi\":"@ + diagnosi + ",\"note\":"@
        + note + "}"@
}

impl PazienteInputView {
    /// The record as one JSON object: every present field as a string
    /// literal, every absent one as `null`.
    pub open spec fn json_text(self) -> Seq<char> {
        record_json(
            json_string_text(self.nome),
            json_string_text(self.cognome),
            json_string_text(self.data_nascita),
            json_optional_text(self.codice_fiscale),
            json_optional_text(self.diagnosi),
            json_optional_text(self.note),
        )
    }
}

/// Encodes one text as a JSON string literal.
///
/// The encoder's signature allows for a refusal, and a refusal would come
/// back as the serialization diagnostic around the encoder's words; but no
/// text is ever refused.
pub fn json_string(text: &str) -> (r: Result<String, String>)
    ensures
        r matches Ok(literal) && literal@ == json_string_text(text@),
{
    match encode_json_string(text) {
        Ok(literal) => Ok(literal),
        Err(words) => Err(serialization_failure(words.as_str())),
    }
}

/// Encodes an optional text as a JSON string literal, or as `null`.
pub fn json_optional(field: &Option<String>) -> (r: Result<String, String>)
    ensures
        r matches Ok(value) && value@ == json_optional_text(field.deep_view()),
{
    match field {
        Some(text) => json_string(text.as_str()),
        None => Ok(String::from_str("null")),
    }
}

/// Writes the JSON object of a record around the JSON text of its values.
pub fn frame_record(
    nome: &str,
    cognome: &str,
    data_nascita: &str,
    codice_fiscale: &str,
    diagnosi: &str,
    note: &str,
) -> (json: String)
    ensures
        json@ == record_json(nome@, cognome@, data_nascita@, codice_fiscale@, diagnosi@, note@),
{
    let mut json = String::from_str("{\"nome\":");
    json.append(nome);
    json.append(",\"cognome\":");
    json.append(cognome);
    json.append(",\"data_nascita\":");
    json.append(data_nascita);
    json.append(",\"codice_fiscale\":");
    json.append(codice_fiscale);
    json.append(",\"diagnosi\":");
    json.append(diagnosi);
    json.append(",\"note\":");
    json.append(note);
    json.append("}");
    json
}

impl PazienteInput {
    /// Encodes the record as the JSON object that the creation script takes
    /// as its argument.
    ///
    /// Every record has a JSON form, so the encoding succeeds on every
    /// record.
    pub fn to_json(&self) -> (r: Result<String, String>)
        ensures
            r matches Ok(json) && json@ == self@.json_text(),
    {
        let nome = match json_string(self.nome.as_str()) {
            Ok(value) => value,
            Err(message) => return Err(message),
        };
        let cognome = match json_string(self.cognome.as_str()) {
            Ok(value) => value,
            Err(message) => return Err(message),
        };
        let data_nascita = match json_string(self.data_nascita.as_str()) {
            Ok(value) => value,
            Err(message) => return Err(message),
        };
        let codice_fiscale = match json_optional(&self.codice_fiscale) {
            Ok(value) => value,
            Err(message) => return Err(message),
        };
        let diagnosi = match json_optional(&self.diagnosi) {
            Ok(value) => value,
            Err(message) => return Err(message),
        };
        let note = match json_optional(&self.note) {
            Ok(value) => value,
            Err(message) => return Err(message),
        };
        Ok(
            frame_record(
                nome.as_str(),
                cognome.as_str(),
                data_nascita.as_str(),
                codice_fiscale.as_str(),
                diagnosi.as_str(),
                note.as_str(),
            ),
        )
    }
}

} // verus!
