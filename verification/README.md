# sortd

Sorts the files of watched folders: each file is classified, by its extension
or by a local language model, and then either moved to the folder of its
category or put into a queue until the user has decided.

`src/` is the library, verified with Verus:

- `path`, `text`, `unicode`, `confidence`: paths as their components, texts, and
  how sure a classification is.
- `classifier`: what the extension says of a file, what the model is asked, and
  what its answers mean.
- `placement`: the folder of a category, and a folder below it that no
  suggestion can lead out of.
- `transfer`: finding a free name, and moving a file to where nothing is.
- `watcher`: which files are looked at, and how folders are watched.
- `agent`: sorting one file, and a whole session.
- `staging`, `history`: what the user decides, what is learned from it, and
  undoing.
- `db`: the statements that the database is given, and what its replies mean.
- `store`, `flows`: a model of the stored rows and of the disk, and the laws of
  whole flows over them.

What takes time or can fail outside the library (the file system, the database
file, the model, the user interface) is a step: a function gives the next thing
to do, and is then told what came of it. The laws that hold of these functions
are the public proof functions whose names begin with `law_`.

`app/` is the desktop application: it performs the steps.
