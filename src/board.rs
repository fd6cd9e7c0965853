use vstd::prelude::*;

verus! {

/// A card on a column: an identifier, a title and an optional description.
pub struct Card {
    pub id: i64,
    pub title: String,
    pub description: Option<String>,
}

/// A column of a board: an identifier, a title and its cards, in order.
pub struct Column {
    pub id: i64,
    pub title: String,
    pub cards: Vec<Card>,
}

/// A board: its columns, in order.
pub struct Board {
    pub columns: Vec<Column>,
}

/// A note: an identifier, a title and its content.
pub struct Note {
    pub id: i64,
    pub title: String,
    pub content: String,
}

impl Card {
    /// A card with the given identifier, title and description.
    pub fn new(id: i64, title: &str, description: Option<String>) -> (r: Card)
        ensures
            r.id == id,
            r.title@ == title@,
            r.description == description,
    {
        Card { id, title: String::from_str(title), description }
    }
}

impl Column {
    /// An empty column with the given identifier and title.
    pub fn new(id: i64, title: &str) -> (r: Column)
        ensures
            r.id == id,
            r.title@ == title@,
            r.cards@.len() == 0,
    {
        Column { id, title: String::from_str(title), cards: Vec::new() }
    }

    /// Appends `card` after the cards already on the column.
    pub fn add_card(&mut self, card: Card)
        ensures
            final(self).id == old(self).id,
            final(self).title == old(self).title,
            final(self).cards@ == old(self).cards@.push(card),
    {
        self.cards.push(card);
    }
}

impl Board {
    /// A board with the given columns.
    pub fn new(columns: Vec<Column>) -> (r: Board)
        ensures
            r.columns == columns,
    {
        Board { columns }
    }
}

/// The identifier, title and content of the note that the add-note command
/// stores.
pub open spec fn is_stored_note(n: Note) -> bool {
    &&& n.id == 1
    &&& n.title@ == "title"@
    &&& n.content@ == "content"@
}

impl Note {
    /// A note with the given identifier, title and content.
    pub fn new(id: i64, title: &str, content: &str) -> (r: Note)
        ensures
            r.id == id,
            r.title@ == title@,
            r.content@ == content@,
    {
        Note { id, title: String::from_str(title), content: String::from_str(content) }
    }

    /// The note that the add-note command stores: identifier 1, title
    /// "title", content "content".
    pub fn to_store() -> (r: Note)
        ensures
            is_stored_note(r),
    {
        Note::new(1, "title", "content")
    }
}

} // verus!
