pub mod controller;
pub mod error;
pub mod laws;
pub mod note;
pub mod schema;
pub mod store;

pub use controller::NoteModelController;
pub use error::NoteError;
pub use note::NoteAbs;
pub use note::NoteModel;
pub use schema::CreateNoteSchema;
pub use schema::FilterOptions;
pub use schema::UpdateNoteSchema;
pub use store::NoteStore;
