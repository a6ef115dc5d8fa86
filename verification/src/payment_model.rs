//! Payment card records: the stored record, the partial-update record, and
//! the merge between them.
use vstd::prelude::*;

verus! {

/// A partial update of a payment record: absent fields keep their stored
/// value.
#[derive(Debug)]
pub struct PaymentDto {
    pub card_holder: Option<String>,
    pub card_number: Option<String>,
    pub security_code: Option<i16>,
    pub expiration_month: Option<i16>,
    pub expiration_year: Option<i16>,
    pub name: Option<String>,
    pub color: Option<String>,
    pub note: Option<String>,
}

/// A stored payment card record.
#[derive(Debug)]
pub struct Payment {
    pub id: i32,
    pub card_holder: String,
    pub card_number: String,
    pub security_code: i16,
    pub expiration_month: i16,
    pub expiration_year: i16,
    pub name: String,
    pub color: String,
    pub note: String,
}

impl Payment {
    /// Merge a partial update into this record: every present field
    /// replaces the stored one, absent fields and the id stay.
    pub fn apply_update(self, update: PaymentDto) -> (r: Payment)
        ensures
            r.id == self.id,
            r.card_holder == (match update.card_holder {
                Some(v) => v,
                None => self.card_holder,
            }),
            r.card_number == (match update.card_number {
                Some(v) => v,
                None => self.card_number,
            }),
            r.security_code == (match update.security_code {
                Some(v) => v,
                None => self.security_code,
            }),
            r.expiration_month == (match update.expiration_month {
                Some(v) => v,
                None => self.expiration_month,
            }),
            r.expiration_year == (match update.expiration_year {
                Some(v) => v,
                None => self.expiration_year,
            }),
            r.name == (match update.name {
                Some(v) => v,
                None => self.name,
            }),
            r.color == (match update.color {
                Some(v) => v,
                None => self.color,
            }),
            r.note == (match update.note {
                Some(v) => v,
                None => self.note,
            }),
    {
        let Payment {
            id,
            mut card_holder,
            mut card_number,
            mut security_code,
            mut expiration_month,
            mut expiration_year,
            mut name,
            mut color,
            mut note,
        } = self;
        if let Some(v) = update.card_holder {
            card_holder = v;
        }
        if let Some(v) = update.card_number {
            card_number = v;
        }
        if let Some(v) = update.security_code {
            security_code = v;
        }
        if let Some(v) = update.expiration_month {
            expiration_month = v;
        }
        if let Some(v) = update.expiration_year {
            expiration_year = v;
        }
        if let Some(v) = update.name {
            name = v;
        }
        if let Some(v) = update.color {
            color = v;
        }
        if let Some(v) = update.note {
            note = v;
        }
        Payment {
            id,
            card_holder,
            card_number,
            security_code,
            expiration_month,
            expiration_year,
            name,
            color,
            note,
        }
    }
}

} // verus!
